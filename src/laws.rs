//! Facts about ticks and runs, proved over the model of a run.
use vstd::prelude::*;

use crate::board::{Board, MARGIN};
use crate::game::{fresh, lemma_step_keeps_wf, run, GameView};
use crate::geometry::{delta_x, delta_y, neighbour_of, opposite, turn, Direction, Position};
use crate::snake::head_on_body;

verus! {

/// After the trim of a tick, the body has one more cell than before, or
/// `max_size` (as it stood before the tick) cells where that is fewer; it is
/// never longer than `max_size`.
pub proof fn lemma_length_after_trim(g: GameView, requested: Option<Direction>, reroll: Position)
    requires
        g.wf(),
        !g.over,
        g.board.inside(reroll),
    ensures
        g.step(requested, reroll).body.len() == if g.body.len() < g.max_size {
            g.body.len() + 1
        } else {
            g.max_size
        },
        g.step(requested, reroll).body.len() <= g.step(requested, reroll).max_size,
{
    lemma_step_keeps_wf(g, requested, reroll);
}

/// Once a run has ended, no further tick changes it.
pub proof fn lemma_over_is_final(
    g: GameView,
    inputs: Seq<Option<Direction>>,
    rerolls: Seq<Position>,
    n: nat,
    m: nat,
)
    requires
        n <= m,
        run(g, inputs, rerolls, n).over,
    ensures
        run(g, inputs, rerolls, m) == run(g, inputs, rerolls, n),
    decreases m,
{
    if n < m {
        lemma_over_is_final(g, inputs, rerolls, n, (m - 1) as nat);
    }
}

/// Every state of a run from a fresh start, with targets drawn from the
/// interior, is well formed.
pub proof fn lemma_run_keeps_wf(
    board: Board,
    target: Position,
    inputs: Seq<Option<Direction>>,
    rerolls: Seq<Position>,
    n: nat,
)
    requires
        board.wf(),
        board.inside(target),
        n <= inputs.len(),
        rerolls.len() == inputs.len(),
        forall|i: int| 0 <= i < rerolls.len() ==> board.inside(#[trigger] rerolls[i]),
    ensures
        run(fresh(board, target), inputs, rerolls, n).wf(),
        run(fresh(board, target), inputs, rerolls, n).board == board,
    decreases n,
{
    if n > 0 {
        lemma_run_keeps_wf(board, target, inputs, rerolls, (n - 1) as nat);
        let prev = run(fresh(board, target), inputs, rerolls, (n - 1) as nat);
        lemma_step_keeps_wf(prev, inputs[n - 1], rerolls[n - 1]);
    }
}

/// Ramp-up: on the `n`-th tick of a run from a fresh start, the body after
/// the trim has `n + 1` cells, or `max_size` (as it stood before that tick)
/// where that is fewer; so it is exactly `max_size` once the start is past.
pub proof fn lemma_ramp_up(
    board: Board,
    target: Position,
    inputs: Seq<Option<Direction>>,
    rerolls: Seq<Position>,
    n: nat,
)
    requires
        board.wf(),
        board.inside(target),
        1 <= n <= inputs.len(),
        rerolls.len() == inputs.len(),
        forall|i: int| 0 <= i < rerolls.len() ==> board.inside(#[trigger] rerolls[i]),
        !run(fresh(board, target), inputs, rerolls, (n - 1) as nat).over,
    ensures
        run(fresh(board, target), inputs, rerolls, n).body.len() == if n + 1 < run(
            fresh(board, target),
            inputs,
            rerolls,
            (n - 1) as nat,
        ).max_size {
            n + 1
        } else {
            run(fresh(board, target), inputs, rerolls, (n - 1) as nat).max_size
        },
        run(fresh(board, target), inputs, rerolls, n).body.len() <= run(
            fresh(board, target),
            inputs,
            rerolls,
            n,
        ).max_size,
    decreases n,
{
    let g0 = fresh(board, target);
    let prev = run(g0, inputs, rerolls, (n - 1) as nat);
    lemma_run_keeps_wf(board, target, inputs, rerolls, (n - 1) as nat);
    lemma_length_after_trim(prev, inputs[n - 1], rerolls[n - 1]);
    if n > 1 {
        let before = run(g0, inputs, rerolls, (n - 2) as nat);
        if before.over {
            lemma_over_is_final(g0, inputs, rerolls, (n - 2) as nat, (n - 1) as nat);
        }
        lemma_ramp_up(board, target, inputs, rerolls, (n - 1) as nat);
        lemma_run_keeps_wf(board, target, inputs, rerolls, (n - 2) as nat);
        assert(prev == before.step(inputs[n - 2], rerolls[n - 2]));
        assert(prev.max_size <= before.max_size + 1);
        assert(prev.max_size >= before.max_size);
    }
}

/// Feeding the same key again changes nothing more: a turn is idempotent,
/// and a key for the current heading keeps it.
pub proof fn lemma_repeated_key(current: Direction, d: Direction)
    ensures
        turn(turn(current, Some(d)), Some(d)) == turn(current, Some(d)),
        turn(d, Some(d)) == d,
{
}

/// A key for the reverse of the current heading never takes effect; in
/// particular a left key never turns a snake heading right.
pub proof fn lemma_no_reversal(g: GameView, reroll: Position)
    requires
        !g.over,
    ensures
        g.step(Some(opposite(g.direction)), reroll).direction == g.direction,
        g.direction == Direction::Right ==> g.step(Some(Direction::Left), reroll).direction
            == Direction::Right,
{
}

/// Movement: the new head is the old head moved by one cell along the
/// (possibly updated) heading, and depends on nothing else.
pub proof fn lemma_movement(g: GameView, requested: Option<Direction>, reroll: Position)
    requires
        g.wf(),
        !g.over,
    ensures
        g.step(requested, reroll).direction == turn(g.direction, requested),
        g.step(requested, reroll).body.last() == neighbour_of(
            g.body.last(),
            g.step(requested, reroll).direction,
        ),
        g.step(requested, reroll).body.last().y == g.body.last().y + delta_y(
            g.step(requested, reroll).direction,
        ),
        g.step(requested, reroll).body.last().x == g.body.last().x + delta_x(
            g.step(requested, reroll).direction,
        ),
{
    let s = g.step(requested, reroll);
    let pushed = g.body.push(g.next_head(requested));
    assert(s.body.last() == pushed.last());
}

/// Consumption: a head that reaches the target raises `max_size` by exactly
/// one and moves the target to the new interior cell; otherwise both stay.
pub proof fn lemma_consumption(g: GameView, requested: Option<Direction>, reroll: Position)
    requires
        g.wf(),
        !g.over,
        g.board.inside(reroll),
    ensures
        g.next_head(requested) == g.target ==> {
            let s = g.step(requested, reroll);
            &&& s.max_size == g.max_size + 1
            &&& s.target == reroll
            &&& MARGIN <= s.target.y < g.board.height - MARGIN
            &&& MARGIN <= s.target.x < g.board.width - MARGIN
        },
        g.next_head(requested) != g.target ==> {
            let s = g.step(requested, reroll);
            &&& s.max_size == g.max_size
            &&& s.target == g.target
        },
{
}

/// Walls: a head that reaches the margin's last row or column on any side
/// ends the run on that tick; a head in the interior that misses the body
/// does not.
pub proof fn lemma_wall_boundary(g: GameView, requested: Option<Direction>, reroll: Position)
    requires
        g.wf(),
        !g.over,
    ensures
        ({
            let h = g.next_head(requested);
            h.y == MARGIN - 1 || h.y == g.board.height - MARGIN || h.x == MARGIN - 1 || h.x
                == g.board.width - MARGIN
        }) ==> g.step(requested, reroll).over,
        g.board.inside(g.next_head(requested)) && !head_on_body(g.step(requested, reroll).body)
            ==> !g.step(requested, reroll).over,
{
}

/// Self-collision: a head that lands on a body cell that is still there
/// after the trim ends the run; a head on a new interior cell does not.
pub proof fn lemma_self_collision(g: GameView, requested: Option<Direction>, reroll: Position)
    requires
        g.wf(),
        !g.over,
    ensures
        g.step(requested, reroll).body.last() == g.next_head(requested),
        g.step(requested, reroll).body.drop_last().contains(g.next_head(requested))
            ==> g.step(requested, reroll).over,
        g.board.inside(g.next_head(requested)) && !g.step(
            requested,
            reroll,
        ).body.drop_last().contains(g.next_head(requested)) ==> !g.step(requested, reroll).over,
{
    let s = g.step(requested, reroll);
    let pushed = g.body.push(g.next_head(requested));
    assert(s.body.last() == pushed.last());
}

} // verus!
