//! The snake: its body, its heading and the length it may reach.
use std::collections::VecDeque;
use vstd::prelude::*;

use crate::geometry::{can_move, neighbour_of, next_direction, turn, Direction, Position};

verus! {

/// The body after one cell was pushed: the oldest cell leaves when the body
/// has grown past `max_size`.
pub open spec fn trimmed(s: Seq<Position>, max_size: nat) -> Seq<Position> {
    if s.len() > max_size {
        s.drop_first()
    } else {
        s
    }
}

/// Whether the last cell of `s` repeats one of the cells before it.
pub open spec fn head_on_body(s: Seq<Position>) -> bool {
    s.drop_last().contains(s.last())
}

/// The snake: body cells from tail to head, the current heading and the
/// length it grows to.
pub struct Snake {
    pub direction: Direction,
    pub max_size: usize,
    pub positions: VecDeque<Position>,
}

impl Snake {
    /// The most recently added cell.
    pub fn get_head(&self) -> (r: Position)
        requires
            self.positions@.len() > 0,
        ensures
            r == self.positions@.last(),
    {
        self.positions[self.positions.len() - 1]
    }

    /// Whether the head stands on one of the other body cells.
    pub fn bites_itself(&self) -> (r: bool)
        requires
            self.positions@.len() > 0,
        ensures
            r == head_on_body(self.positions@),
    {
        let head = self.get_head();
        let n = self.positions.len() - 1;
        let ghost body = self.positions@.drop_last();
        let mut i: usize = 0;
        while i < n
            invariant
                n == self.positions@.len() - 1,
                body == self.positions@.drop_last(),
                head == self.positions@.last(),
                i <= n,
                forall|j: int| 0 <= j < i ==> body[j] != head,
            decreases n - i,
        {
            if self.positions[i] == head {
                assert(body[i as int] == head);
                return true;
            }
            i = i + 1;
        }
        assert(!body.contains(head));
        false
    }

    /// One move: take the heading for the key, push the next cell in that
    /// heading, and drop the tail once the body is longer than `max_size`.
    pub fn advance(&mut self, requested: Option<Direction>)
        requires
            old(self).positions@.len() > 0,
            can_move(old(self).positions@.last(), turn(old(self).direction, requested)),
        ensures
            final(self).direction == turn(old(self).direction, requested),
            final(self).max_size == old(self).max_size,
            final(self).positions@ == trimmed(
                old(self).positions@.push(
                    neighbour_of(old(self).positions@.last(), final(self).direction),
                ),
                old(self).max_size as nat,
            ),
    {
        self.direction = next_direction(self.direction, requested);
        let head = self.get_head();
        let next = head.neighbour(self.direction);
        self.positions.push_back(next);
        if self.positions.len() > self.max_size {
            self.positions.pop_front();
        }
    }
}

} // verus!
