//! Glyph bitmaps and the table that assigns them to indicators.
//!
//! A glyph is stored in the packed 1-bit format of embedded-graphics' raw
//! images: rows top to bottom, each row padded to whole bytes, the leftmost
//! pixel in the most significant bit, a set bit meaning "lit".

use crate::geometry::{Indicator, INDICATOR_COUNT};
use embedded_graphics::image::{GetPixel, ImageRaw};
use embedded_graphics::pixelcolor::BinaryColor;
use embedded_graphics::prelude::Point;
use vstd::prelude::*;

verus! {

/// Number of bytes that hold one row of a packed image `width` pixels wide.
pub open spec fn row_stride(width: nat) -> nat {
    (width + 7) / 8
}

/// Number of whole rows that `len` bytes of a packed image hold.
pub open spec fn packed_rows(len: nat, width: nat) -> nat {
    if width == 0 {
        0
    } else {
        len / row_stride(width)
    }
}

/// The pixel in column `x` and row `y` of a packed image.
pub open spec fn packed_bit(data: Seq<u8>, width: nat, x: int, y: int) -> bool {
    let byte = data[y * row_stride(width) + x / 8];
    (byte >> ((7 - x % 8) as u8)) & 1u8 == 1u8
}

/// Relies on embedded-graphics' `ImageRaw::<BinaryColor>::new` and its
/// `GetPixel::pixel`: inside the image, the pixel is `On` exactly when its bit
/// of the packed data is set.
#[verifier::external_body]
fn raw_pixel(data: &[u8], width: u32, x: u32, y: u32) -> (r: bool)
    requires
        x < width <= i32::MAX,
        y < packed_rows(data@.len(), width as nat) <= i32::MAX,
        data@.len() * 8 <= usize::MAX,
    ensures
        r == packed_bit(data@, width as nat, x as int, y as int),
{
    let image = ImageRaw::<BinaryColor>::new(data, width);
    image.pixel(Point::new(x as i32, y as i32)) == Some(BinaryColor::On)
}

/// A monochrome bitmap in packed 1-bit rows.
#[derive(Clone, Debug)]
pub struct Glyph {
    pub data: Vec<u8>,
    pub width: u32,
}

impl Glyph {
    pub open spec fn spec_height(&self) -> nat {
        packed_rows(self.data@.len(), self.width as nat)
    }

    /// The glyph is small enough for pixel coordinates to be signed 32-bit
    /// and bit offsets into its data to fit a `usize`.
    pub open spec fn addressable(&self) -> bool {
        &&& self.width <= i32::MAX
        &&& self.spec_height() <= i32::MAX
        &&& self.data@.len() * 8 <= usize::MAX
    }

    pub open spec fn spec_pixel(&self, x: int, y: int) -> bool {
        packed_bit(self.data@, self.width as nat, x, y)
    }

    pub fn new(data: Vec<u8>, width: u32) -> (r: Glyph)
        ensures
            r.data@ == data@,
            r.width == width,
    {
        Glyph { data, width }
    }

    /// Number of whole rows in the glyph; a trailing partial row is ignored.
    pub fn height(&self) -> (r: u64)
        ensures
            r == self.spec_height(),
    {
        if self.width == 0 {
            0
        } else {
            let stride: u64 = (self.width as u64 + 7) / 8;
            self.data.len() as u64 / stride
        }
    }

    /// Whether the pixel in column `x` and row `y` is lit.
    pub fn pixel(&self, x: u32, y: u32) -> (r: bool)
        requires
            self.addressable(),
            x < self.width,
            y < self.spec_height(),
        ensures
            r == self.spec_pixel(x as int, y as int),
    {
        raw_pixel(self.data.as_slice(), self.width, x, y)
    }
}

/// A glyph may be shown for this indicator in this state: every indicator has
/// a lit glyph, all but the buzzer an unlit one.
pub open spec fn has_glyph(ind: Indicator, lit: bool) -> bool {
    lit || ind != Indicator::Buzzer
}

/// The glyph is exactly as large as the indicator's rectangle.
pub open spec fn sized_for(g: Glyph, ind: Indicator) -> bool {
    &&& g.width == ind.spec_bounds().width
    &&& g.spec_height() == ind.spec_bounds().height
}

/// A glyph sized for an indicator's rectangle is small enough to read.
pub proof fn lemma_sized_is_addressable(g: Glyph, ind: Indicator)
    requires
        sized_for(g, ind),
    ensures
        g.addressable(),
{
    let stride = row_stride(g.width as nat);
    assert(stride == 2 || stride == 3);
    assert(g.data@.len() < (g.spec_height() + 1) * stride) by (nonlinear_arith)
        requires
            g.spec_height() == g.data@.len() / stride,
            stride > 0,
    ;
}

/// The glyphs of all indicators: a lit one for each of the seven, an unlit
/// one for each but the buzzer.
#[derive(Clone, Debug)]
pub struct GlyphTable {
    lit: Vec<Glyph>,
    unlit: Vec<Glyph>,
}

impl GlyphTable {
    /// The glyph shown for `ind` when its flag is `lit`.
    pub closed spec fn glyph(self, ind: Indicator, lit: bool) -> Glyph {
        if lit {
            self.lit@[ind.spec_index() as int]
        } else {
            self.unlit@[ind.spec_index() as int]
        }
    }

    pub closed spec fn complete(self) -> bool {
        &&& self.lit@.len() == INDICATOR_COUNT
        &&& self.unlit@.len() == INDICATOR_COUNT - 1
    }

    pub open spec fn wf(self) -> bool {
        &&& self.complete()
        &&& forall|ind: Indicator, lit: bool|
            has_glyph(ind, lit) ==> sized_for(#[trigger] self.glyph(ind, lit), ind)
    }

    /// Builds the table from the lit glyphs in drawing order (clock, bell,
    /// caps lock, compose, scroll lock, num lock, buzzer) and the unlit
    /// glyphs of the first six. Fails unless there are seven and six glyphs
    /// and each has the size of its indicator's rectangle.
    pub fn new(lit: Vec<Glyph>, unlit: Vec<Glyph>) -> (r: Option<GlyphTable>)
        ensures
            r is Some <==> {
                &&& lit@.len() == INDICATOR_COUNT
                &&& unlit@.len() == INDICATOR_COUNT - 1
                &&& forall|i: int|
                    0 <= i < INDICATOR_COUNT ==> sized_for(
                        #[trigger] lit@[i],
                        Indicator::spec_from_index(i),
                    )
                &&& forall|i: int|
                    0 <= i < INDICATOR_COUNT - 1 ==> sized_for(
                        #[trigger] unlit@[i],
                        Indicator::spec_from_index(i),
                    )
            },
            r is Some ==> {
                &&& r->0.wf()
                &&& forall|ind: Indicator| #[trigger]
                    r->0.glyph(ind, true) == lit@[ind.spec_index() as int]
                &&& forall|ind: Indicator|
                    ind != Indicator::Buzzer ==> #[trigger] r->0.glyph(ind, false)
                        == unlit@[ind.spec_index() as int]
            },
    {
        if lit.len() != INDICATOR_COUNT || unlit.len() != INDICATOR_COUNT - 1 {
            return None;
        }
        let mut i: usize = 0;
        while i < INDICATOR_COUNT
            invariant
                i <= INDICATOR_COUNT,
                lit@.len() == INDICATOR_COUNT,
                unlit@.len() == INDICATOR_COUNT - 1,
                forall|j: int|
                    0 <= j < i ==> sized_for(#[trigger] lit@[j], Indicator::spec_from_index(j)),
                forall|j: int|
                    0 <= j < i && j < INDICATOR_COUNT - 1 ==> sized_for(
                        #[trigger] unlit@[j],
                        Indicator::spec_from_index(j),
                    ),
            decreases INDICATOR_COUNT - i,
        {
            let b = Indicator::from_index(i).bounds();
            if lit[i].width != b.width || lit[i].height() != b.height as u64 {
                return None;
            }
            if i < INDICATOR_COUNT - 1 {
                if unlit[i].width != b.width || unlit[i].height() != b.height as u64 {
                    return None;
                }
            }
            i = i + 1;
        }
        let table = GlyphTable { lit, unlit };
        assert forall|ind: Indicator, lit: bool| has_glyph(ind, lit) implies sized_for(
            #[trigger] table.glyph(ind, lit),
            ind,
        ) by {
            crate::geometry::lemma_index_round_trip(ind);
        }
        Some(table)
    }

    /// The glyph shown for `ind` when its flag is `lit`.
    pub fn get(&self, ind: Indicator, lit: bool) -> (r: &Glyph)
        requires
            self.wf(),
            has_glyph(ind, lit),
        ensures
            *r == self.glyph(ind, lit),
    {
        if lit {
            &self.lit[ind.index()]
        } else {
            &self.unlit[ind.index()]
        }
    }
}

} // verus!
