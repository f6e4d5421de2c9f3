//! Fixed panel geometry: which rectangle each indicator owns.

use vstd::prelude::*;

verus! {

/// Width of the panel in pixels.
pub const PANEL_WIDTH: u32 = 128;

/// Height of the panel in pixels.
pub const PANEL_HEIGHT: u32 = 32;

/// Size of the glyphs of the six two-state indicators.
pub const LABEL_WIDTH: u32 = 24;

pub const LABEL_HEIGHT: u32 = 14;

/// Size of the buzzer glyph.
pub const BUZZER_WIDTH: u32 = 16;

pub const BUZZER_HEIGHT: u32 = 16;

/// Number of indicators on the panel.
pub const INDICATOR_COUNT: usize = 7;

/// One indicator of the panel, in drawing order.
#[derive(Clone, Copy, Debug, PartialEq, Eq, Structural)]
pub enum Indicator {
    Clock,
    Bell,
    CapsLock,
    Compose,
    ScrollLock,
    NumLock,
    Buzzer,
}

/// An axis-aligned rectangle of pixels: columns `x .. x + width`, rows
/// `y .. y + height`.
#[derive(Clone, Copy, Debug, PartialEq, Eq, Structural)]
pub struct Bounds {
    pub x: u32,
    pub y: u32,
    pub width: u32,
    pub height: u32,
}

impl Bounds {
    pub open spec fn contains(self, px: int, py: int) -> bool {
        &&& self.x <= px < self.x + self.width
        &&& self.y <= py < self.y + self.height
    }

    /// The two rectangles share at least one pixel.
    pub open spec fn overlaps(self, other: Bounds) -> bool {
        &&& self.x < other.x + other.width
        &&& other.x < self.x + self.width
        &&& self.y < other.y + other.height
        &&& other.y < self.y + self.height
    }

    /// Every pixel of the rectangle lies in a `width` x `height` extent.
    pub open spec fn fits_in(self, width: int, height: int) -> bool {
        &&& self.x + self.width <= width
        &&& self.y + self.height <= height
    }
}

impl Indicator {
    /// Position of the indicator in drawing order.
    pub open spec fn spec_index(self) -> nat {
        match self {
            Indicator::Clock => 0,
            Indicator::Bell => 1,
            Indicator::CapsLock => 2,
            Indicator::Compose => 3,
            Indicator::ScrollLock => 4,
            Indicator::NumLock => 5,
            Indicator::Buzzer => 6,
        }
    }

    pub open spec fn spec_from_index(i: int) -> Indicator {
        if i == 0 {
            Indicator::Clock
        } else if i == 1 {
            Indicator::Bell
        } else if i == 2 {
            Indicator::CapsLock
        } else if i == 3 {
            Indicator::Compose
        } else if i == 4 {
            Indicator::ScrollLock
        } else if i == 5 {
            Indicator::NumLock
        } else {
            Indicator::Buzzer
        }
    }

    /// The rectangle that the indicator's glyph covers.
    pub open spec fn spec_bounds(self) -> Bounds {
        match self {
            Indicator::Clock => Bounds { x: 78, y: 0, width: LABEL_WIDTH, height: LABEL_HEIGHT },
            Indicator::Bell => Bounds { x: 104, y: 0, width: LABEL_WIDTH, height: LABEL_HEIGHT },
            Indicator::CapsLock => Bounds { x: 0, y: 18, width: LABEL_WIDTH, height: LABEL_HEIGHT },
            Indicator::Compose => Bounds { x: 26, y: 18, width: LABEL_WIDTH, height: LABEL_HEIGHT },
            Indicator::ScrollLock => Bounds { x: 52, y: 18, width: LABEL_WIDTH, height: LABEL_HEIGHT },
            Indicator::NumLock => Bounds { x: 78, y: 18, width: LABEL_WIDTH, height: LABEL_HEIGHT },
            Indicator::Buzzer => Bounds {
                x: 106,
                y: 16,
                width: BUZZER_WIDTH,
                height: BUZZER_HEIGHT,
            },
        }
    }

    pub fn index(self) -> (r: usize)
        ensures
            r == self.spec_index(),
            r < INDICATOR_COUNT,
    {
        match self {
            Indicator::Clock => 0,
            Indicator::Bell => 1,
            Indicator::CapsLock => 2,
            Indicator::Compose => 3,
            Indicator::ScrollLock => 4,
            Indicator::NumLock => 5,
            Indicator::Buzzer => 6,
        }
    }

    /// The indicator at position `i` of the drawing order.
    pub fn from_index(i: usize) -> (r: Indicator)
        requires
            i < INDICATOR_COUNT,
        ensures
            r == Indicator::spec_from_index(i as int),
            r.spec_index() == i,
    {
        if i == 0 {
            Indicator::Clock
        } else if i == 1 {
            Indicator::Bell
        } else if i == 2 {
            Indicator::CapsLock
        } else if i == 3 {
            Indicator::Compose
        } else if i == 4 {
            Indicator::ScrollLock
        } else if i == 5 {
            Indicator::NumLock
        } else {
            Indicator::Buzzer
        }
    }

    /// The fixed placement of the indicator's glyph.
    pub fn bounds(self) -> (r: Bounds)
        ensures
            r == self.spec_bounds(),
    {
        match self {
            Indicator::Clock => Bounds { x: 78, y: 0, width: LABEL_WIDTH, height: LABEL_HEIGHT },
            Indicator::Bell => Bounds { x: 104, y: 0, width: LABEL_WIDTH, height: LABEL_HEIGHT },
            Indicator::CapsLock => Bounds { x: 0, y: 18, width: LABEL_WIDTH, height: LABEL_HEIGHT },
            Indicator::Compose => Bounds { x: 26, y: 18, width: LABEL_WIDTH, height: LABEL_HEIGHT },
            Indicator::ScrollLock => Bounds { x: 52, y: 18, width: LABEL_WIDTH, height: LABEL_HEIGHT },
            Indicator::NumLock => Bounds { x: 78, y: 18, width: LABEL_WIDTH, height: LABEL_HEIGHT },
            Indicator::Buzzer => Bounds {
                x: 106,
                y: 16,
                width: BUZZER_WIDTH,
                height: BUZZER_HEIGHT,
            },
        }
    }
}

/// Indexing the drawing order and reading an indicator's position are
/// inverse to each other.
pub proof fn lemma_index_round_trip(ind: Indicator)
    ensures
        Indicator::spec_from_index(ind.spec_index() as int) == ind,
        ind.spec_index() < INDICATOR_COUNT,
{
}

/// The placement table is sound: no two indicators' rectangles share a
/// pixel, and every rectangle lies inside the 128x32 panel.
pub proof fn lemma_placements_disjoint_and_on_panel()
    ensures
        forall|a: Indicator, b: Indicator|
            a != b ==> !(#[trigger] a.spec_bounds()).overlaps(#[trigger] b.spec_bounds()),
        forall|a: Indicator|
            (#[trigger] a.spec_bounds()).fits_in(PANEL_WIDTH as int, PANEL_HEIGHT as int),
{
}

} // verus!
