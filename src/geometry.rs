//! Cells, headings and how a heading changes.
use vstd::prelude::*;

verus! {

/// A character cell, addressed by row `y` and column `x`.
#[derive(PartialEq, Eq, Structural, Clone, Copy, Debug)]
pub struct Position {
    pub y: i32,
    pub x: i32,
}

/// The heading of the snake.
#[derive(PartialEq, Eq, Structural, Clone, Copy, Debug)]
pub enum Direction {
    Up,
    Down,
    Left,
    Right,
}

/// The heading that points the other way.
pub open spec fn opposite(d: Direction) -> Direction {
    match d {
        Direction::Up => Direction::Down,
        Direction::Down => Direction::Up,
        Direction::Left => Direction::Right,
        Direction::Right => Direction::Left,
    }
}

/// Row component of the unit vector of `d`.
pub open spec fn delta_y(d: Direction) -> int {
    match d {
        Direction::Up => -1,
        Direction::Down => 1,
        _ => 0,
    }
}

/// Column component of the unit vector of `d`.
pub open spec fn delta_x(d: Direction) -> int {
    match d {
        Direction::Left => -1,
        Direction::Right => 1,
        _ => 0,
    }
}

/// Whether the cell one step from `p` along `d` has coordinates that fit in `i32`.
pub open spec fn can_move(p: Position, d: Direction) -> bool {
    i32::MIN <= p.y + delta_y(d) <= i32::MAX && i32::MIN <= p.x + delta_x(d) <= i32::MAX
}

/// The cell one step from `p` along `d`.
pub open spec fn neighbour_of(p: Position, d: Direction) -> Position {
    Position { y: (p.y + delta_y(d)) as i32, x: (p.x + delta_x(d)) as i32 }
}

/// The heading after a requested turn: a request for the reverse of the
/// current heading, or no request at all, keeps the current heading.
pub open spec fn turn(current: Direction, requested: Option<Direction>) -> Direction {
    match requested {
        Some(d) => if d == opposite(current) {
            current
        } else {
            d
        },
        None => current,
    }
}

impl Position {
    /// The cell one step away along `d`.
    pub fn neighbour(&self, d: Direction) -> (r: Position)
        requires
            can_move(*self, d),
        ensures
            r == neighbour_of(*self, d),
            r.y == self.y + delta_y(d),
            r.x == self.x + delta_x(d),
    {
        match d {
            Direction::Up => Position { y: self.y - 1, x: self.x },
            Direction::Down => Position { y: self.y + 1, x: self.x },
            Direction::Left => Position { y: self.y, x: self.x - 1 },
            Direction::Right => Position { y: self.y, x: self.x + 1 },
        }
    }
}

/// The heading that the snake takes for a key: `requested` is the heading of
/// a recognised arrow key, or `None` where no key or another key was pressed.
pub fn next_direction(current: Direction, requested: Option<Direction>) -> (r: Direction)
    ensures
        r == turn(current, requested),
{
    match requested {
        Some(Direction::Left) => if current != Direction::Right {
            Direction::Left
        } else {
            current
        },
        Some(Direction::Right) => if current != Direction::Left {
            Direction::Right
        } else {
            current
        },
        Some(Direction::Up) => if current != Direction::Down {
            Direction::Up
        } else {
            current
        },
        Some(Direction::Down) => if current != Direction::Up {
            Direction::Down
        } else {
            current
        },
        None => current,
    }
}

} // verus!
