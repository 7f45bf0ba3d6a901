//! The board: its size, its walls and where a target may stand.
use vstd::prelude::*;

use crate::geometry::Position;
use crate::random::uniform_in;

verus! {

/// Width of the lethal border on each side of the board.
pub const MARGIN: i32 = 2;

/// The smallest height or width that leaves an interior cell.
pub const MIN_SIDE: i32 = 5;

/// The board, sized once from the terminal.
#[derive(PartialEq, Eq, Structural, Clone, Copy, Debug)]
pub struct Board {
    pub height: i32,
    pub width: i32,
}

impl Board {
    /// Both sides leave at least one interior cell.
    pub open spec fn wf(self) -> bool {
        self.height >= MIN_SIDE && self.width >= MIN_SIDE
    }

    /// `p` lies in the interior, clear of the margin on every side.
    pub open spec fn inside(self, p: Position) -> bool {
        &&& MARGIN <= p.y < self.height - MARGIN
        &&& MARGIN <= p.x < self.width - MARGIN
    }

    /// `p` lies on or past the margin on some side.
    pub open spec fn wall_at(self, p: Position) -> bool {
        ||| p.y <= MARGIN - 1
        ||| p.y >= self.height - MARGIN
        ||| p.x <= MARGIN - 1
        ||| p.x >= self.width - MARGIN
    }

    /// The cell in the middle of the board.
    pub open spec fn center_spec(self) -> Position {
        Position { y: (self.height / 2) as i32, x: (self.width / 2) as i32 }
    }

    /// A board of the given size, if it has an interior.
    pub fn new(height: i32, width: i32) -> (r: Option<Board>)
        ensures
            r is Some <==> (height >= MIN_SIDE && width >= MIN_SIDE),
            r matches Some(b) ==> b.wf() && b.height == height && b.width == width,
    {
        if height >= MIN_SIDE && width >= MIN_SIDE {
            Some(Board { height, width })
        } else {
            None
        }
    }

    /// Whether a head at `p` has run into the wall.
    pub fn is_wall(&self, p: Position) -> (r: bool)
        requires
            self.wf(),
        ensures
            r == self.wall_at(p),
            r == !self.inside(p),
    {
        p.y <= MARGIN - 1 || p.y >= self.height - MARGIN || p.x <= MARGIN - 1 || p.x >= self.width
            - MARGIN
    }

    /// The cell in the middle of the board, where a run starts.
    pub fn center(&self) -> (r: Position)
        requires
            self.wf(),
        ensures
            r == self.center_spec(),
            self.inside(r),
    {
        Position { y: self.height / 2, x: self.width / 2 }
    }

    /// A target cell drawn uniformly from the interior.
    pub fn place_target(&self) -> (r: Position)
        requires
            self.wf(),
        ensures
            self.inside(r),
    {
        let y = uniform_in(MARGIN, self.height - MARGIN);
        let x = uniform_in(MARGIN, self.width - MARGIN);
        Position { y, x }
    }
}

} // verus!
