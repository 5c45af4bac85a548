//! Coordinates and the rectangle that bounds motion.

use vstd::prelude::*;

verus! {

/// A coordinate moved by `by` and held at 0 where it would turn negative.
pub open spec fn shifted(coordinate: int, by: int) -> int {
    if coordinate + by < 0 {
        0
    } else {
        coordinate + by
    }
}

/// A point of the drawing surface. Coordinates are never negative.
#[derive(Debug, Copy, Clone, PartialEq, Eq, Structural)]
pub struct Location {
    pub x: u32,
    pub y: u32,
}

impl Location {
    pub fn new(x: u32, y: u32) -> (l: Location)
        ensures
            l == (Location { x, y }),
    {
        Location { x, y }
    }
}

/// The rectangle inside which a pet moves: an origin and an extent, in
/// terminal cells.
#[derive(Debug, Copy, Clone, PartialEq, Eq, Structural)]
pub struct Playground {
    pub x: u16,
    pub y: u16,
    pub width: u16,
    pub height: u16,
}

/// The width of the customary playground.
pub const DEFAULT_PLAYGROUND_WIDTH: u16 = 150;

/// The height of the customary playground.
pub const DEFAULT_PLAYGROUND_HEIGHT: u16 = 100;

impl Playground {
    pub fn new(x: u16, y: u16, width: u16, height: u16) -> (p: Playground)
        ensures
            p == (Playground { x, y, width, height }),
    {
        Playground { x, y, width, height }
    }

    /// The customary playground: 150 by 100 cells at the origin.
    pub fn standard() -> (p: Playground)
        ensures
            p == (Playground {
                x: 0,
                y: 0,
                width: DEFAULT_PLAYGROUND_WIDTH,
                height: DEFAULT_PLAYGROUND_HEIGHT,
            }),
    {
        Playground {
            x: 0,
            y: 0,
            width: DEFAULT_PLAYGROUND_WIDTH,
            height: DEFAULT_PLAYGROUND_HEIGHT,
        }
    }

    /// The first column of the rectangle.
    pub open spec fn spec_left(self) -> int {
        self.x as int
    }

    /// The column just past the rectangle, held to what sixteen bits can
    /// express.
    pub open spec fn spec_right(self) -> int {
        if self.x + self.width <= u16::MAX {
            self.x + self.width
        } else {
            u16::MAX as int
        }
    }

    /// The first row of the rectangle.
    pub open spec fn spec_top(self) -> int {
        self.y as int
    }

    /// The row just past the rectangle, held to what sixteen bits can
    /// express.
    pub open spec fn spec_bottom(self) -> int {
        if self.y + self.height <= u16::MAX {
            self.y + self.height
        } else {
            u16::MAX as int
        }
    }

    /// The point halfway along each extent, measured from the rectangle's
    /// own corner.
    pub open spec fn spec_center(self) -> Location {
        Location { x: (self.width / 2) as u32, y: (self.height / 2) as u32 }
    }

    pub fn left(self) -> (v: u32)
        ensures
            v == self.spec_left(),
    {
        self.x as u32
    }

    pub fn right(self) -> (v: u32)
        ensures
            v == self.spec_right(),
    {
        let edge: u32 = self.x as u32 + self.width as u32;
        if edge <= u16::MAX as u32 {
            edge
        } else {
            u16::MAX as u32
        }
    }

    pub fn top(self) -> (v: u32)
        ensures
            v == self.spec_top(),
    {
        self.y as u32
    }

    pub fn bottom(self) -> (v: u32)
        ensures
            v == self.spec_bottom(),
    {
        let edge: u32 = self.y as u32 + self.height as u32;
        if edge <= u16::MAX as u32 {
            edge
        } else {
            u16::MAX as u32
        }
    }

    pub fn center(self) -> (c: Location)
        ensures
            c == self.spec_center(),
    {
        Location::new(self.width as u32 / 2, self.height as u32 / 2)
    }
}

} // verus!
