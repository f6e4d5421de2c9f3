//! The indicator renderer: turns the seven flags into glyphs on the buffer.

use crate::buffer::{DrawError, PixelBuffer};
use crate::geometry::{Indicator, INDICATOR_COUNT, PANEL_HEIGHT, PANEL_WIDTH};
use crate::glyph::{GlyphTable, has_glyph};
use vstd::prelude::*;

verus! {

/// The state shown on the panel: one flag per indicator.
#[derive(Clone, Copy, Debug, PartialEq, Eq, Structural)]
pub struct Display {
    pub clk: bool,
    pub bel: bool,
    pub cap: bool,
    pub cmp: bool,
    pub scr: bool,
    pub num: bool,
    pub buzzer: bool,
}

/// The indicator whose rectangle holds the pixel in column `px` and row `py`,
/// if any.
pub open spec fn owner(px: int, py: int) -> Option<Indicator> {
    if Indicator::Clock.spec_bounds().contains(px, py) {
        Some(Indicator::Clock)
    } else if Indicator::Bell.spec_bounds().contains(px, py) {
        Some(Indicator::Bell)
    } else if Indicator::CapsLock.spec_bounds().contains(px, py) {
        Some(Indicator::CapsLock)
    } else if Indicator::Compose.spec_bounds().contains(px, py) {
        Some(Indicator::Compose)
    } else if Indicator::ScrollLock.spec_bounds().contains(px, py) {
        Some(Indicator::ScrollLock)
    } else if Indicator::NumLock.spec_bounds().contains(px, py) {
        Some(Indicator::NumLock)
    } else if Indicator::Buzzer.spec_bounds().contains(px, py) {
        Some(Indicator::Buzzer)
    } else {
        None
    }
}

impl Display {
    pub open spec fn flag(self, ind: Indicator) -> bool {
        match ind {
            Indicator::Clock => self.clk,
            Indicator::Bell => self.bel,
            Indicator::CapsLock => self.cap,
            Indicator::Compose => self.cmp,
            Indicator::ScrollLock => self.scr,
            Indicator::NumLock => self.num,
            Indicator::Buzzer => self.buzzer,
        }
    }

    /// A glyph is drawn for `ind`: always for the six two-state indicators,
    /// for the buzzer only while its flag is set.
    pub open spec fn shows(self, ind: Indicator) -> bool {
        has_glyph(ind, self.flag(ind))
    }

    /// The pixel after drawing the indicators that come before position `k`
    /// of the drawing order.
    pub open spec fn partial_pixel(
        self,
        glyphs: GlyphTable,
        pixels: Seq<Seq<bool>>,
        k: int,
        px: int,
        py: int,
    ) -> bool {
        match owner(px, py) {
            Some(ind) => if self.shows(ind) && ind.spec_index() < k {
                glyphs.glyph(ind, self.flag(ind)).spec_pixel(
                    px - ind.spec_bounds().x,
                    py - ind.spec_bounds().y,
                )
            } else {
                pixels[py][px]
            },
            None => pixels[py][px],
        }
    }

    /// The pixel after drawing: inside the rectangle of an indicator that is
    /// shown, the matching pixel of its glyph; elsewhere the pixel as it was.
    pub open spec fn shown_pixel(
        self,
        glyphs: GlyphTable,
        pixels: Seq<Seq<bool>>,
        px: int,
        py: int,
    ) -> bool {
        self.partial_pixel(glyphs, pixels, INDICATOR_COUNT as int, px, py)
    }

    pub open spec fn partial(self, glyphs: GlyphTable, pixels: Seq<Seq<bool>>, k: int) -> Seq<
        Seq<bool>,
    > {
        Seq::new(
            pixels.len(),
            |py: int|
                Seq::new(pixels[py].len(), |px: int| self.partial_pixel(glyphs, pixels, k, px, py)),
        )
    }

    /// The buffer `pixels` once the state has been drawn onto it.
    pub open spec fn rendered(self, glyphs: GlyphTable, pixels: Seq<Seq<bool>>) -> Seq<Seq<bool>> {
        self.partial(glyphs, pixels, INDICATOR_COUNT as int)
    }

    pub fn flag_of(&self, ind: Indicator) -> (r: bool)
        ensures
            r == self.flag(ind),
    {
        match ind {
            Indicator::Clock => self.clk,
            Indicator::Bell => self.bel,
            Indicator::CapsLock => self.cap,
            Indicator::Compose => self.cmp,
            Indicator::ScrollLock => self.scr,
            Indicator::NumLock => self.num,
            Indicator::Buzzer => self.buzzer,
        }
    }

    /// Draws each indicator in turn (clock, bell, caps lock, compose, scroll
    /// lock, num lock, buzzer) at its fixed place: the lit or unlit glyph by
    /// its flag, the buzzer only while set. Succeeds exactly when the buffer
    /// spans the whole panel; on failure pixels outside the indicators'
    /// rectangles are still untouched.
    pub fn draw(&self, glyphs: &GlyphTable, target: &mut PixelBuffer) -> (r: Result<(), DrawError>)
        requires
            glyphs.wf(),
            old(target).wf(),
        ensures
            final(target).wf(),
            final(target).spec_width() == old(target).spec_width(),
            final(target).spec_height() == old(target).spec_height(),
            r is Ok <==> {
                &&& old(target).spec_width() >= PANEL_WIDTH
                &&& old(target).spec_height() >= PANEL_HEIGHT
            },
            r is Ok ==> final(target)@ == self.rendered(*glyphs, old(target)@),
            forall|py: int, px: int|
                0 <= py < old(target).spec_height() && 0 <= px < old(target).spec_width() && !(
                owner(px, py) is Some && self.shows(owner(px, py)->0))
                ==> #[trigger] final(target)@[py][px] == old(target)@[py][px],
    {
        let ghost start = target@;
        proof {
            crate::geometry::lemma_placements_disjoint_and_on_panel();
        }
        assert(target@ =~~= self.partial(*glyphs, start, 0));
        let mut k: usize = 0;
        while k < INDICATOR_COUNT
            invariant
                k <= INDICATOR_COUNT,
                glyphs.wf(),
                target.wf(),
                target.spec_width() == old(target).spec_width(),
                target.spec_height() == old(target).spec_height(),
                start == old(target)@,
                target@ == self.partial(*glyphs, start, k as int),
                forall|j: int|
                    0 <= j < k && self.shows(Indicator::spec_from_index(j)) ==> (
                    #[trigger] Indicator::spec_from_index(j)).spec_bounds().fits_in(
                        target.spec_width() as int,
                        target.spec_height() as int,
                    ),
                forall|a: Indicator, b: Indicator|
                    a != b ==> !(#[trigger] a.spec_bounds()).overlaps(#[trigger] b.spec_bounds()),
                forall|a: Indicator|
                    (#[trigger] a.spec_bounds()).fits_in(PANEL_WIDTH as int, PANEL_HEIGHT as int),
            decreases INDICATOR_COUNT - k,
        {
            let ind = Indicator::from_index(k);
            let lit = self.flag_of(ind);
            if lit || ind != Indicator::Buzzer {
                let b = ind.bounds();
                let g = glyphs.get(ind, lit);
                proof {
                    crate::glyph::lemma_sized_is_addressable(*g, ind);
                }
                let res = target.blit(g, b.x, b.y);
                if res.is_err() {
                    proof {
                        self.lemma_untouched_outside(*glyphs, start, k as int);
                    }
                    return res;
                }
                proof {
                    self.lemma_step(*glyphs, start, k as int);
                }
            } else {
                assert(target@ =~~= self.partial(*glyphs, start, k + 1));
            }
            k = k + 1;
        }
        proof {
            self.lemma_untouched_outside(*glyphs, start, INDICATOR_COUNT as int);
            assert(self.shows(Indicator::spec_from_index(1)));
            assert(self.shows(Indicator::spec_from_index(2)));
        }
        Ok(())
    }

    /// Drawing the indicator at position `k` onto the buffer drawn up to `k`
    /// gives the buffer drawn up to `k + 1`.
    proof fn lemma_step(self, glyphs: GlyphTable, pixels: Seq<Seq<bool>>, k: int)
        requires
            glyphs.wf(),
            0 <= k < INDICATOR_COUNT,
            self.shows(Indicator::spec_from_index(k)),
        ensures
            ({
                let ind = Indicator::spec_from_index(k);
                crate::buffer::blitted(
                    self.partial(glyphs, pixels, k),
                    glyphs.glyph(ind, self.flag(ind)),
                    ind.spec_bounds().x as int,
                    ind.spec_bounds().y as int,
                ) =~~= self.partial(glyphs, pixels, k + 1)
            }),
    {
        let ind = Indicator::spec_from_index(k);
        assert(crate::glyph::sized_for(glyphs.glyph(ind, self.flag(ind)), ind));
    }

    /// Pixels that no shown indicator owns keep their value at every stage.
    proof fn lemma_untouched_outside(self, glyphs: GlyphTable, pixels: Seq<Seq<bool>>, k: int)
        ensures
            forall|py: int, px: int|
                0 <= py < pixels.len() && 0 <= px < pixels[py].len() && !(owner(px, py) is Some
                    && self.shows(owner(px, py)->0)) ==> #[trigger] self.partial(
                    glyphs,
                    pixels,
                    k,
                )[py][px] == pixels[py][px],
    {
    }
}

/// Drawing the same state twice in a row leaves the buffer exactly as
/// drawing it once does.
pub proof fn lemma_draw_idempotent(state: Display, glyphs: GlyphTable, pixels: Seq<Seq<bool>>)
    ensures
        state.rendered(glyphs, state.rendered(glyphs, pixels)) == state.rendered(glyphs, pixels),
{
    assert(state.rendered(glyphs, state.rendered(glyphs, pixels)) =~~= state.rendered(
        glyphs,
        pixels,
    ));
}

} // verus!
