use std::collections::VecDeque;

use snake::board::{Board, MARGIN};
use snake::game::{Game, Glyph, BODY_SYMBOL, INITIAL_SIZE, TARGET_SYMBOL};
use snake::geometry::{next_direction, Direction, Position};
use Direction::{Down, Left, Right, Up};
use snake::snake::Snake;

fn pos(y: i32, x: i32) -> Position {
    Position { y, x }
}

fn board_20_40() -> Board {
    Board::new(20, 40).unwrap()
}

fn body(g: &Game) -> Vec<Position> {
    g.snake.positions.iter().copied().collect()
}

fn in_interior(b: &Board, p: Position) -> bool {
    MARGIN <= p.y && p.y < b.height - MARGIN && MARGIN <= p.x && p.x < b.width - MARGIN
}

#[test]
fn three_quiet_ticks_from_start() {
    let mut g = Game::start(board_20_40(), pos(2, 2));
    assert_eq!(body(&g), vec![pos(10, 20)]);
    for _ in 0..3 {
        assert!(g.tick(None));
    }
    assert_eq!(g.snake.get_head(), pos(10, 23));
    assert_eq!(body(&g), vec![pos(10, 20), pos(10, 21), pos(10, 22), pos(10, 23)]);
    assert_eq!(g.snake.direction, Direction::Right);
}

#[test]
fn length_ramps_up_then_stays_at_max_size() {
    let mut g = Game::start(board_20_40(), pos(2, 2));
    let mut lens = Vec::new();
    for _ in 0..8 {
        assert!(g.tick(None));
        assert!(g.snake.positions.len() <= g.snake.max_size);
        lens.push(g.snake.positions.len());
    }
    assert_eq!(lens, vec![2, 3, 4, 4, 4, 4, 4, 4]);
    assert_eq!(g.snake.max_size, INITIAL_SIZE);
}

#[test]
fn eating_grows_by_one_without_trim_on_next_tick() {
    let mut g = Game::start(board_20_40(), pos(10, 24));
    for _ in 0..3 {
        assert!(g.tick(None));
    }
    assert_eq!(g.snake.positions.len(), 4);
    // tick k: the head reaches the target
    assert!(g.tick_with(None, pos(3, 3)));
    assert_eq!(g.snake.get_head(), pos(10, 24));
    assert_eq!(g.snake.max_size, 5);
    assert_eq!(g.target, pos(3, 3));
    assert_eq!(g.snake.positions.len(), 4);
    // tick k + 1: no trim
    assert!(g.tick(None));
    assert_eq!(g.snake.max_size, 5);
    assert_eq!(g.snake.positions.len(), 5);
    assert_eq!(body(&g), vec![pos(10, 21), pos(10, 22), pos(10, 23), pos(10, 24), pos(10, 25)]);
}

#[test]
fn eating_draws_a_new_interior_target() {
    let b = board_20_40();
    let mut g = Game::start(b, pos(10, 21));
    assert!(g.tick(None));
    assert_eq!(g.snake.max_size, 5);
    assert!(in_interior(&b, g.target));
}

#[test]
fn right_wall_ends_the_run_on_that_tick() {
    let mut g = Game::start(board_20_40(), pos(2, 2));
    let mut ticks = 0;
    while g.tick(None) {
        ticks += 1;
        assert!(ticks < 100);
    }
    // from column 20 the head reaches column 38 = width - MARGIN on tick 18
    assert_eq!(ticks, 17);
    assert!(g.is_over());
    assert_eq!(g.snake.get_head(), pos(10, 38));
    // a finished run stays as it is
    let before = body(&g);
    assert!(!g.tick(Some(Direction::Up)));
    assert_eq!(body(&g), before);
}

#[test]
fn left_and_top_walls() {
    let mut g = Game::start(board_20_40(), pos(15, 30));
    assert!(g.tick(Some(Direction::Up)));
    let mut ticks = 1;
    while g.tick(None) {
        ticks += 1;
    }
    // row 10 to row 1 = MARGIN - 1 takes 9 ticks
    assert_eq!(ticks, 8);
    assert_eq!(g.snake.get_head(), pos(1, 20));
}

#[test]
fn direction_table() {
    let all = [Up, Down, Left, Right];
    for &c in &all {
        assert_eq!(next_direction(c, None), c);
        assert_eq!(next_direction(c, Some(c)), c);
        assert_eq!(next_direction(next_direction(c, Some(c)), Some(c)), c);
    }
    assert_eq!(next_direction(Right, Some(Left)), Right);
    assert_eq!(next_direction(Left, Some(Right)), Left);
    assert_eq!(next_direction(Up, Some(Down)), Up);
    assert_eq!(next_direction(Down, Some(Up)), Down);
    assert_eq!(next_direction(Right, Some(Up)), Up);
    assert_eq!(next_direction(Right, Some(Down)), Down);
    assert_eq!(next_direction(Up, Some(Left)), Left);
    assert_eq!(next_direction(Down, Some(Right)), Right);
}

#[test]
fn reversal_key_is_ignored_in_a_tick() {
    let mut g = Game::start(board_20_40(), pos(2, 2));
    assert!(g.tick(Some(Direction::Left)));
    assert_eq!(g.snake.direction, Direction::Right);
    assert_eq!(g.snake.get_head(), pos(10, 21));
}

#[test]
fn movement_in_each_direction() {
    let p = pos(7, 9);
    assert_eq!(p.neighbour(Direction::Up), pos(6, 9));
    assert_eq!(p.neighbour(Direction::Down), pos(8, 9));
    assert_eq!(p.neighbour(Direction::Left), pos(7, 8));
    assert_eq!(p.neighbour(Direction::Right), pos(7, 10));
    let mut g = Game::start(board_20_40(), pos(2, 2));
    assert!(g.tick(Some(Direction::Down)));
    assert_eq!(g.snake.get_head(), pos(11, 20));
    assert!(g.tick(Some(Direction::Left)));
    assert_eq!(g.snake.get_head(), pos(11, 19));
    assert_eq!(g.next_head(Some(Direction::Up)), pos(10, 19));
    assert_eq!(g.next_head(Some(Direction::Right)), pos(11, 18));
}

#[test]
fn wall_boundary_cells() {
    let b = board_20_40();
    assert!(b.is_wall(pos(MARGIN - 1, 20)));
    assert!(b.is_wall(pos(20 - MARGIN, 20)));
    assert!(b.is_wall(pos(10, MARGIN - 1)));
    assert!(b.is_wall(pos(10, 40 - MARGIN)));
    assert!(!b.is_wall(pos(MARGIN, MARGIN)));
    assert!(!b.is_wall(pos(20 - MARGIN - 1, 40 - MARGIN - 1)));
    assert!(!b.is_wall(pos(10, 20)));
}

#[test]
fn board_needs_an_interior() {
    assert!(Board::new(4, 40).is_none());
    assert!(Board::new(20, 4).is_none());
    assert!(Board::new(0, 0).is_none());
    assert_eq!(Board::new(5, 5), Some(Board { height: 5, width: 5 }));
    assert_eq!(Board::new(5, 5).unwrap().center(), pos(2, 2));
    assert_eq!(board_20_40().center(), pos(10, 20));
}

#[test]
fn self_collision_on_constructed_snake() {
    let cells = [pos(5, 5), pos(5, 6), pos(6, 6), pos(6, 5), pos(5, 5)];
    let s = Snake {
        direction: Direction::Up,
        max_size: 5,
        positions: cells.iter().copied().collect::<VecDeque<_>>(),
    };
    assert!(s.bites_itself());
    let fresh_head = Snake {
        direction: Direction::Up,
        max_size: 5,
        positions: cells[..4].iter().copied().collect::<VecDeque<_>>(),
    };
    assert!(!fresh_head.bites_itself());
    let single = Snake { direction: Direction::Up, max_size: 1, positions: VecDeque::from(vec![pos(5, 5)]) };
    assert!(!single.bites_itself());
}

#[test]
fn turning_into_own_body_ends_the_run() {
    let mut g = Game::start(board_20_40(), pos(2, 2));
    g.snake.max_size = 5;
    for _ in 0..4 {
        assert!(g.tick(None));
    }
    assert!(g.tick(Some(Direction::Down)));
    assert!(g.tick(Some(Direction::Left)));
    assert!(!g.tick(Some(Direction::Up)));
    assert_eq!(g.snake.get_head(), pos(10, 23));
    assert!(g.is_over());
}

#[test]
fn moving_into_the_cell_the_tail_leaves_is_safe() {
    let mut g = Game::start(board_20_40(), pos(2, 2));
    for _ in 0..3 {
        assert!(g.tick(None));
    }
    assert!(g.tick(Some(Direction::Down)));
    assert!(g.tick(Some(Direction::Left)));
    // body (10,22) (10,23) (11,23) (11,22); the tail (10,22) leaves as the head enters
    assert!(g.tick(Some(Direction::Up)));
    assert_eq!(g.snake.get_head(), pos(10, 22));
}

#[test]
fn frame_lists_target_then_body() {
    let mut g = Game::start(board_20_40(), pos(4, 5));
    assert!(g.tick(None));
    let f = g.frame();
    assert_eq!(
        f,
        vec![
            Glyph { at: pos(4, 5), symbol: TARGET_SYMBOL },
            Glyph { at: pos(10, 20), symbol: BODY_SYMBOL },
            Glyph { at: pos(10, 21), symbol: BODY_SYMBOL },
        ]
    );
    assert_eq!(TARGET_SYMBOL, 'x');
    assert_eq!(BODY_SYMBOL, 'o');
}

#[test]
fn placed_targets_cover_the_interior_range() {
    let b = Board::new(7, 8).unwrap();
    let mut seen = std::collections::HashSet::new();
    for _ in 0..2000 {
        let t = b.place_target();
        assert!(in_interior(&b, t));
        seen.insert(t.y * 100 + t.x);
    }
    // rows 2..5 and columns 2..6: 3 * 4 cells
    assert_eq!(seen.len(), 12);
    let g = Game::new(b);
    assert!(in_interior(&b, g.target));
    assert_eq!(body(&g), vec![pos(3, 4)]);
}
