//! The monochrome canvas that indicators are drawn onto.

use crate::glyph::Glyph;
use vstd::prelude::*;

verus! {

/// A draw did not fit the buffer.
#[derive(Clone, Copy, Debug, PartialEq, Eq, Structural)]
pub enum DrawError {
    /// Part of the glyph would fall outside the buffer's extent.
    OutOfBounds,
}

/// A `width` x `height` grid of pixels, `true` meaning lit, stored row by row.
#[derive(Clone, Debug)]
pub struct PixelBuffer {
    width: u32,
    height: u32,
    rows: Vec<Vec<bool>>,
}

impl View for PixelBuffer {
    type V = Seq<Seq<bool>>;

    closed spec fn view(&self) -> Seq<Seq<bool>> {
        Seq::new(self.rows@.len(), |i: int| self.rows@[i]@)
    }
}

/// `pixels` with the glyph `g` copied over it, its top-left corner at column
/// `x` and row `y`; every other pixel keeps its value.
pub open spec fn blitted(pixels: Seq<Seq<bool>>, g: Glyph, x: int, y: int) -> Seq<Seq<bool>> {
    Seq::new(
        pixels.len(),
        |py: int|
            Seq::new(
                pixels[py].len(),
                |px: int|
                    if x <= px < x + g.width && y <= py < y + g.spec_height() {
                        g.spec_pixel(px - x, py - y)
                    } else {
                        pixels[py][px]
                    },
            ),
    )
}

impl PixelBuffer {
    pub closed spec fn spec_width(&self) -> nat {
        self.width as nat
    }

    pub closed spec fn spec_height(&self) -> nat {
        self.height as nat
    }

    /// The rows and their lengths agree with the buffer's extent.
    pub open spec fn wf(&self) -> bool {
        &&& self@.len() == self.spec_height()
        &&& forall|py: int| 0 <= py < self@.len() ==> (#[trigger] self@[py]).len() == self.spec_width()
    }

    /// A buffer with every pixel unlit.
    pub fn new(width: u32, height: u32) -> (r: PixelBuffer)
        ensures
            r.wf(),
            r.spec_width() == width,
            r.spec_height() == height,
            forall|py: int, px: int|
                0 <= py < height && 0 <= px < width ==> !(#[trigger] r@[py][px]),
    {
        let mut rows: Vec<Vec<bool>> = Vec::new();
        let mut j: u32 = 0;
        while j < height
            invariant
                j <= height,
                rows@.len() == j,
                forall|py: int|
                    0 <= py < j ==> (#[trigger] rows@[py])@.len() == width && forall|px: int|
                        0 <= px < width ==> !rows@[py]@[px],
            decreases height - j,
        {
            let mut row: Vec<bool> = Vec::new();
            let mut i: u32 = 0;
            while i < width
                invariant
                    i <= width,
                    row@.len() == i,
                    forall|px: int| 0 <= px < i ==> !row@[px],
                decreases width - i,
            {
                row.push(false);
                i = i + 1;
            }
            rows.push(row);
            j = j + 1;
        }
        let r = PixelBuffer { width, height, rows };
        assert forall|py: int, px: int| 0 <= py < height && 0 <= px < width implies !(
        #[trigger] r@[py][px]) by {
            assert(r@[py] == r.rows@[py]@);
        }
        r
    }

    pub fn width(&self) -> (r: u32)
        ensures
            r == self.spec_width(),
    {
        self.width
    }

    pub fn height(&self) -> (r: u32)
        ensures
            r == self.spec_height(),
    {
        self.height
    }

    /// Whether the pixel in column `x` and row `y` is lit.
    pub fn get(&self, x: u32, y: u32) -> (r: bool)
        requires
            self.wf(),
            x < self.spec_width(),
            y < self.spec_height(),
        ensures
            r == self@[y as int][x as int],
    {
        assert(self@[y as int] == self.rows@[y as int]@);
        self.rows[y as usize][x as usize]
    }

    /// Copies the glyph over the buffer with its top-left corner at column `x`
    /// and row `y`, replacing the pixels beneath it. Fails, leaving the buffer
    /// as it was, where the glyph would not fit entirely.
    pub fn blit(&mut self, g: &Glyph, x: u32, y: u32) -> (r: Result<(), DrawError>)
        requires
            old(self).wf(),
            g.addressable(),
        ensures
            final(self).wf(),
            final(self).spec_width() == old(self).spec_width(),
            final(self).spec_height() == old(self).spec_height(),
            r is Ok <==> {
                &&& x + g.width <= old(self).spec_width()
                &&& y + g.spec_height() <= old(self).spec_height()
            },
            r is Ok ==> final(self)@ == blitted(old(self)@, *g, x as int, y as int),
            r is Err ==> final(self)@ == old(self)@,
    {
        let gh = g.height();
        if x as u64 + g.width as u64 > self.width as u64 || y as u64 + gh > self.height as u64 {
            return Err(DrawError::OutOfBounds);
        }
        let gh = gh as u32;
        let ghost start = self@;
        let mut row: u32 = 0;
        while row < gh
            invariant
                gh == g.spec_height(),
                x + g.width <= self.spec_width(),
                y + gh <= self.spec_height(),
                g.addressable(),
                row <= gh,
                self.wf(),
                self.spec_width() == old(self).spec_width(),
                self.spec_height() == old(self).spec_height(),
                start == old(self)@,
                forall|py: int, px: int|
                    0 <= py < self.spec_height() && 0 <= px < self.spec_width() ==> #[trigger] self@[py][px]
                        == if x <= px < x + g.width && y <= py < y + row {
                        g.spec_pixel(px - x, py - y)
                    } else {
                        start[py][px]
                    },
            decreases gh - row,
        {
            let mut col: u32 = 0;
            while col < g.width
                invariant
                    gh == g.spec_height(),
                    x + g.width <= self.spec_width(),
                    y + gh <= self.spec_height(),
                    g.addressable(),
                    row < gh,
                    col <= g.width,
                    self.wf(),
                    self.spec_width() == old(self).spec_width(),
                    self.spec_height() == old(self).spec_height(),
                    start == old(self)@,
                    forall|py: int, px: int|
                        0 <= py < self.spec_height() && 0 <= px < self.spec_width()
                            ==> #[trigger] self@[py][px] == if (x <= px < x + g.width && y <= py
                            < y + row) || (x <= px < x + col && py == y + row) {
                            g.spec_pixel(px - x, py - y)
                        } else {
                            start[py][px]
                        },
                decreases g.width - col,
            {
                let v = g.pixel(col, row);
                let ghost before = self@;
                let ry = (y + row) as usize;
                let cx = (x + col) as usize;
                assert(self@[ry as int] == self.rows@[ry as int]@);
                self.rows[ry].set(cx, v);
                assert forall|py: int| 0 <= py < self@.len() implies self@[py] == if py == ry {
                    before[py].update(cx as int, v)
                } else {
                    before[py]
                } by {
                    assert(self@[py] == self.rows@[py]@);
                }
                col = col + 1;
            }
            row = row + 1;
        }
        assert(self@ =~~= blitted(start, *g, x as int, y as int));
        Ok(())
    }
}

} // verus!
