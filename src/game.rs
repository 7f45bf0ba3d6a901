//! One run of the game: its state, and what a tick does to it.
use std::collections::VecDeque;
use vstd::prelude::*;

use crate::board::Board;
use crate::geometry::{neighbour_of, turn, Direction, Position};
use crate::snake::{head_on_body, trimmed, Snake};

verus! {

/// Milliseconds between two ticks.
pub const TICK_MILLIS: u64 = 40;

/// The length that a fresh snake grows to.
pub const INITIAL_SIZE: usize = 4;

/// The heading of a fresh snake.
pub const INITIAL_DIRECTION: Direction = Direction::Right;

/// The state of a run as a mathematical value.
pub struct GameView {
    pub board: Board,
    pub direction: Direction,
    pub max_size: nat,
    pub body: Seq<Position>,
    pub target: Position,
    pub over: bool,
}

impl GameView {
    /// The body is never empty nor longer than `max_size`, the target lies in
    /// the interior, and while the run goes on the head lies in the interior
    /// and no two body cells coincide.
    pub open spec fn wf(self) -> bool {
        &&& self.board.wf()
        &&& self.body.len() > 0
        &&& self.body.len() <= self.max_size
        &&& self.board.inside(self.target)
        &&& !self.over ==> self.board.inside(self.body.last())
        &&& !self.over ==> self.body.no_duplicates()
    }

    /// Where the head goes on this tick.
    pub open spec fn next_head(self, requested: Option<Direction>) -> Position {
        neighbour_of(self.body.last(), turn(self.direction, requested))
    }

    /// One tick: turn, move, trim, eat (the target moves to `reroll`), then
    /// end the run on a wall or on the body. A finished run stays as it is.
    pub open spec fn step(self, requested: Option<Direction>, reroll: Position) -> GameView {
        if self.over {
            self
        } else {
            let head = self.next_head(requested);
            let body = trimmed(self.body.push(head), self.max_size);
            let eaten = head == self.target;
            GameView {
                board: self.board,
                direction: turn(self.direction, requested),
                max_size: if eaten {
                    self.max_size + 1
                } else {
                    self.max_size
                },
                body,
                target: if eaten {
                    reroll
                } else {
                    self.target
                },
                over: self.board.wall_at(head) || head_on_body(body),
            }
        }
    }
}

/// A tick of a well-formed game keeps it well formed, given a target drawn
/// from the interior.
pub proof fn lemma_step_keeps_wf(g: GameView, requested: Option<Direction>, reroll: Position)
    requires
        g.wf(),
        g.board.inside(reroll),
    ensures
        g.step(requested, reroll).wf(),
{
    if !g.over {
        let s = g.step(requested, reroll);
        let h = g.next_head(requested);
        let pushed = g.body.push(h);
        assert(s.body.last() == pushed.last());
        if !s.over {
            let rest = s.body.drop_last();
            assert(s.body =~= rest.push(h));
            if pushed.len() > g.max_size {
                assert(rest =~= g.body.drop_first());
            } else {
                assert(rest =~= g.body);
            }
            assert(rest.no_duplicates());
            assert(!rest.contains(h));
            assert forall|i: int, j: int|
                0 <= i < s.body.len() && 0 <= j < s.body.len() && i != j implies s.body[i]
                != s.body[j] by {
                if i == s.body.len() - 1 {
                    assert(rest[j] == s.body[j]);
                } else if j == s.body.len() - 1 {
                    assert(rest[i] == s.body[i]);
                }
            }
        }
    }
}

/// A run at its start: a one-cell snake in the middle of the board, heading
/// right, that grows to the initial size.
pub open spec fn fresh(board: Board, target: Position) -> GameView {
    GameView {
        board,
        direction: INITIAL_DIRECTION,
        max_size: INITIAL_SIZE as nat,
        body: seq![board.center_spec()],
        target,
        over: false,
    }
}

/// The state after the first `n` ticks, the `i`-th with key `inputs[i]` and
/// fresh target `rerolls[i]`.
pub open spec fn run(
    g: GameView,
    inputs: Seq<Option<Direction>>,
    rerolls: Seq<Position>,
    n: nat,
) -> GameView
    decreases n,
{
    if n == 0 {
        g
    } else {
        run(g, inputs, rerolls, (n - 1) as nat).step(inputs[n - 1], rerolls[n - 1])
    }
}

/// One glyph of a frame: a symbol at a cell.
#[derive(PartialEq, Eq, Structural, Clone, Copy, Debug)]
pub struct Glyph {
    pub at: Position,
    pub symbol: char,
}

/// The symbol drawn for the target.
pub const TARGET_SYMBOL: char = 'x';

/// The symbol drawn for each body cell.
pub const BODY_SYMBOL: char = 'o';

/// A run of the game.
pub struct Game {
    pub board: Board,
    pub snake: Snake,
    pub target: Position,
    pub game_over: bool,
}

impl View for Game {
    type V = GameView;

    open spec fn view(&self) -> GameView {
        GameView {
            board: self.board,
            direction: self.snake.direction,
            max_size: self.snake.max_size as nat,
            body: self.snake.positions@,
            target: self.target,
            over: self.game_over,
        }
    }
}

impl Game {
    /// The state of the run is well formed (see `GameView::wf`).
    pub open spec fn wf(&self) -> bool {
        self@.wf()
    }

    /// A fresh run on `board` with its first target at `target`.
    pub fn start(board: Board, target: Position) -> (r: Game)
        requires
            board.wf(),
            board.inside(target),
        ensures
            r@ == fresh(board, target),
            r.wf(),
    {
        let mut positions = VecDeque::new();
        positions.push_back(board.center());
        proof {
            assert(positions@ =~= seq![board.center_spec()]);
        }
        Game {
            board,
            snake: Snake { direction: INITIAL_DIRECTION, max_size: INITIAL_SIZE, positions },
            target,
            game_over: false,
        }
    }

    /// A fresh run on `board` with its first target drawn from the interior.
    pub fn new(board: Board) -> (r: Game)
        requires
            board.wf(),
        ensures
            r@ == fresh(board, r.target),
            r.wf(),
    {
        let target = board.place_target();
        Game::start(board, target)
    }

    /// Whether the run has ended.
    pub fn is_over(&self) -> (r: bool)
        ensures
            r == self.game_over,
    {
        self.game_over
    }

    /// Where the head goes on this tick.
    pub fn next_head(&self, requested: Option<Direction>) -> (r: Position)
        requires
            self.wf(),
            !self.game_over,
        ensures
            r == self@.next_head(requested),
    {
        let d = crate::geometry::next_direction(self.snake.direction, requested);
        self.snake.get_head().neighbour(d)
    }

    /// One tick with the key `requested`; where the head reaches the target,
    /// the target moves to `reroll`. Returns whether the run goes on.
    pub fn tick_with(&mut self, requested: Option<Direction>, reroll: Position) -> (running: bool)
        requires
            old(self).wf(),
            old(self).snake.max_size < usize::MAX,
            old(self).board.inside(reroll),
        ensures
            final(self)@ == old(self)@.step(requested, reroll),
            final(self).wf(),
            running == !final(self).game_over,
    {
        if self.game_over {
            return false;
        }
        self.snake.advance(requested);
        let head = self.snake.get_head();
        if head == self.target {
            self.snake.max_size = self.snake.max_size + 1;
            self.target = reroll;
        }
        if self.board.is_wall(head) {
            self.game_over = true;
        }
        if self.snake.bites_itself() {
            self.game_over = true;
        }
        proof {
            lemma_step_keeps_wf(old(self)@, requested, reroll);
        }
        !self.game_over
    }

    /// One tick with the key `requested`; where the head reaches the target,
    /// a new target is drawn from the interior. Returns whether the run goes on.
    pub fn tick(&mut self, requested: Option<Direction>) -> (running: bool)
        requires
            old(self).wf(),
            old(self).snake.max_size < usize::MAX,
        ensures
            final(self)@ == old(self)@.step(requested, final(self).target),
            final(self).wf(),
            running == !final(self).game_over,
    {
        if self.game_over {
            return false;
        }
        let reroll = if self.next_head(requested) == self.target {
            self.board.place_target()
        } else {
            self.target
        };
        self.tick_with(requested, reroll)
    }

    /// What to draw: the target, then every body cell from tail to head.
    pub fn frame(&self) -> (r: Vec<Glyph>)
        ensures
            r@.len() == self.snake.positions@.len() + 1,
            r@[0] == (Glyph { at: self.target, symbol: TARGET_SYMBOL }),
            forall|i: int|
                0 <= i < self.snake.positions@.len() ==> r@[i + 1] == (Glyph {
                    at: self.snake.positions@[i],
                    symbol: BODY_SYMBOL,
                }),
    {
        let mut r: Vec<Glyph> = Vec::new();
        r.push(Glyph { at: self.target, symbol: TARGET_SYMBOL });
        let n = self.snake.positions.len();
        let mut i: usize = 0;
        while i < n
            invariant
                n == self.snake.positions@.len(),
                i <= n,
                r@.len() == i + 1,
                r@[0] == (Glyph { at: self.target, symbol: TARGET_SYMBOL }),
                forall|j: int|
                    0 <= j < i ==> r@[j + 1] == (Glyph {
                        at: self.snake.positions@[j],
                        symbol: BODY_SYMBOL,
                    }),
            decreases n - i,
        {
            r.push(Glyph { at: self.snake.positions[i], symbol: BODY_SYMBOL });
            i = i + 1;
        }
        r
    }
}

} // verus!
