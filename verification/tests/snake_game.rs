use microbit_kit::cells::CellSet;
use microbit_kit::grid::{MoveDirection, Position, TurnDirection};
use microbit_kit::prng::Prng;
use microbit_kit::snake::{food_brightness, next_blink_step, Snake, BLINK_STEPS};

fn pos(row: i8, col: i8) -> Position {
    Position { row, col }
}

#[test]
fn xorshift_known_values() {
    assert_eq!(Prng::xorshift32(1), 270369);
    assert_eq!(Prng::xorshift32(270369), 67634689);
    assert_eq!(Prng::xorshift32(0), 0);
}

#[test]
fn prng_advances_state() {
    let mut p = Prng::new(1);
    assert_eq!(p.random_u32(), 270369);
    assert_eq!(p.random_u32(), 67634689);
}

#[test]
fn turn_table() {
    let (up, down, left, right) =
        (MoveDirection::Up, MoveDirection::Down, MoveDirection::Left, MoveDirection::Right);
    assert_eq!(up.turn(&TurnDirection::Left), left);
    assert_eq!(left.turn(&TurnDirection::Left), down);
    assert_eq!(down.turn(&TurnDirection::Left), right);
    assert_eq!(right.turn(&TurnDirection::Left), up);
    assert_eq!(up.turn(&TurnDirection::Right), right);
    assert_eq!(right.turn(&TurnDirection::Right), down);
    assert_eq!(down.turn(&TurnDirection::Right), left);
    assert_eq!(left.turn(&TurnDirection::Right), up);
}

#[test]
fn turns_cancel_and_four_turns_return() {
    for d in [MoveDirection::Up, MoveDirection::Down, MoveDirection::Left, MoveDirection::Right] {
        assert_eq!(d.turn(&TurnDirection::Left).turn(&TurnDirection::Right), d);
        let mut e = d;
        for _ in 0..4 {
            e = e.turn(&TurnDirection::Left);
        }
        assert_eq!(e, d);
    }
}

#[test]
fn buttons_to_turns() {
    assert_eq!(TurnDirection::from_buttons(true, false), Some(TurnDirection::Left));
    assert_eq!(TurnDirection::from_buttons(false, true), Some(TurnDirection::Right));
    assert_eq!(TurnDirection::from_buttons(true, true), None);
    assert_eq!(TurnDirection::from_buttons(false, false), None);
}

#[test]
fn out_of_bounds_checks() {
    assert!(!pos(0, 0).is_out_of_bounds());
    assert!(!pos(4, 4).is_out_of_bounds());
    assert!(pos(-1, 2).is_out_of_bounds());
    assert!(pos(2, 5).is_out_of_bounds());
}

#[test]
fn wrap_bounds_edges() {
    let mut p = pos(-1, 2);
    p.wrap_bounds();
    assert_eq!(p, pos(4, 2));
    let mut p = pos(5, 4);
    p.wrap_bounds();
    assert_eq!(p, pos(0, 4));
    let mut p = pos(3, -1);
    p.wrap_bounds();
    assert_eq!(p, pos(3, 4));
    let mut p = pos(2, 3);
    p.wrap_bounds();
    assert_eq!(p, pos(2, 3));
    // far off the grid, Rust's remainder keeps the sign
    let mut p = pos(-7, 9);
    p.wrap_bounds();
    assert_eq!(p, pos(-2, 4));
}

#[test]
fn next_in_wraps() {
    assert_eq!(pos(4, 1).next_in(MoveDirection::Down), pos(0, 1));
    assert_eq!(pos(0, 1).next_in(MoveDirection::Up), pos(4, 1));
    assert_eq!(pos(2, 0).next_in(MoveDirection::Left), pos(2, 4));
    assert_eq!(pos(2, 4).next_in(MoveDirection::Right), pos(2, 0));
}

/// A new game from `seed` with its first food drawn and put down.
fn started(seed: u32) -> Snake {
    let mut s = Snake::new(seed);
    let food = s.get_food();
    s.set_food(food);
    s
}

#[test]
fn new_game_layout() {
    let s = Snake::new(1);
    assert_eq!(s.head(), pos(2, 2));
    assert_eq!(s.tail(), vec![(1, 2)]);
    assert_eq!(s.direction(), MoveDirection::Down);
    assert_eq!(s.food(), None);
    assert!(s.covers((2, 2)));
    assert!(s.covers((1, 2)));
    assert!(!s.covers((4, 4)));
}

#[test]
fn new_game_keeps_seed_until_first_food() {
    let mut s = Snake::new(1);
    // first draw from seed 1: 270369 % 5 = 4, 67634689 % 5 = 4
    assert_eq!(s.get_food(), pos(4, 4));
    assert_eq!(s.food(), None);
    let s = started(1);
    assert_eq!(s.food(), Some(pos(4, 4)));
    assert!(!s.is_on_food());
}

#[test]
fn new_game_other_seeds() {
    assert_eq!(started(7).food(), Some(pos(3, 0)));
    assert_eq!(started(12345).food(), Some(pos(0, 2)));
}

#[test]
fn move_without_turn() {
    let mut s = started(1);
    s.snake_move_tick(None);
    assert_eq!(s.head(), pos(3, 2));
    assert_eq!(s.tail(), vec![(2, 2)]);
    assert_eq!(s.direction(), MoveDirection::Down);
    assert!(!s.covers((1, 2)));
}

#[test]
fn move_with_turn_and_eat() {
    let mut s = started(1);
    s.snake_move_tick(None);
    s.snake_move_tick(Some(TurnDirection::Left));
    assert_eq!(s.head(), pos(3, 3));
    assert_eq!(s.direction(), MoveDirection::Right);
    s.snake_move_tick(None);
    assert_eq!(s.head(), pos(3, 4));
    assert!(!s.is_on_food());
    s.snake_move_tick(Some(TurnDirection::Right));
    // onto the food at (4, 4): the tail keeps its end
    assert_eq!(s.head(), pos(4, 4));
    assert_eq!(s.tail(), vec![(3, 3), (3, 4)]);
    assert_eq!(s.direction(), MoveDirection::Down);
    assert_eq!(s.food(), Some(pos(1, 0)));
}

#[test]
fn moving_down_wraps_to_top() {
    let mut s = started(1);
    for pending in [None, Some(TurnDirection::Left), None, Some(TurnDirection::Right), None] {
        s.snake_move_tick(pending);
    }
    assert_eq!(s.head(), pos(0, 4));
    assert_eq!(s.tail(), vec![(3, 4), (4, 4)]);
}

#[test]
fn collision_restarts_game() {
    let mut s = started(1);
    let turns = [
        None,
        Some(TurnDirection::Left),
        None,
        Some(TurnDirection::Right),
        None,
        None,
        Some(TurnDirection::Left),
    ];
    for pending in turns {
        s.snake_move_tick(pending);
    }
    // second meal at (1, 0) after wrapping around the right edge
    assert_eq!(s.head(), pos(1, 0));
    assert_eq!(s.tail(), vec![(4, 4), (0, 4), (1, 4)]);
    assert_eq!(s.food(), Some(pos(3, 4)));
    s.snake_move_tick(Some(TurnDirection::Left));
    assert_eq!(s.head(), pos(0, 0));
    s.snake_move_tick(Some(TurnDirection::Left));
    // (0, 4) is part of the snake: new game
    assert_eq!(s.head(), pos(2, 2));
    assert_eq!(s.tail(), vec![(1, 2)]);
    assert_eq!(s.direction(), MoveDirection::Down);
    assert_eq!(s.food(), Some(pos(2, 0)));
}

#[test]
fn reset_game_keeps_generator_running() {
    let mut s = started(1);
    s.snake_move_tick(None);
    s.reset_game();
    assert_eq!(s.head(), pos(2, 2));
    assert_eq!(s.tail(), vec![(1, 2)]);
    assert_eq!(s.direction(), MoveDirection::Down);
    assert!(!s.covers((3, 2)));
    let f = s.food().unwrap();
    assert!(!s.covers((f.row, f.col)));
}

#[test]
fn get_food_avoids_snake() {
    let mut s = Snake::new(1);
    for _ in 0..20 {
        let f = s.get_food();
        assert!(!f.is_out_of_bounds());
        assert!(!s.covers((f.row, f.col)));
    }
}

#[test]
fn snake_matrix_pixels() {
    let mut s = started(1);
    s.snake_move_tick(None);
    let m = s.get_snake_matrix(7);
    let mut expected = [[0u8; 5]; 5];
    expected[3][2] = 9;
    expected[2][2] = 6;
    expected[4][4] = 7;
    assert_eq!(m, expected);
}

#[test]
fn food_never_on_snake_during_play() {
    let mut s = started(0xdead_beef);
    let turns = [None, Some(TurnDirection::Left), None, None, Some(TurnDirection::Right)];
    // 143 ticks of this play fill the matrix, where the food search never ends
    for k in 0..120 {
        s.snake_move_tick(turns[k % turns.len()]);
        let f = s.food().unwrap();
        assert!(!s.covers((f.row, f.col)));
        assert!(s.tail().len() + 1 <= 25);
    }
}

#[test]
fn blink_cycle() {
    let levels: Vec<u8> = (0..BLINK_STEPS).map(food_brightness).collect();
    assert_eq!(levels, vec![9, 8, 7, 6, 5, 4, 3, 2, 1, 0, 0, 0, 0]);
    assert_eq!(next_blink_step(0), 1);
    assert_eq!(next_blink_step(12), 0);
    let mut step = 0;
    for _ in 0..13 {
        step = next_blink_step(step);
    }
    assert_eq!(step, 0);
}

/// Whether two cells are side by side on the 5x5 torus.
fn torus_neighbours(a: (i8, i8), b: (i8, i8)) -> bool {
    let step = |x: i8, y: i8| (x + 1) % 5 == y || (y + 1) % 5 == x;
    (a.0 == b.0 && step(a.1, b.1)) || (a.1 == b.1 && step(a.0, b.0))
}

#[test]
fn body_cells_stay_torus_neighbours() {
    let mut s = started(0xdead_beef);
    let turns = [None, Some(TurnDirection::Left), None, None, Some(TurnDirection::Right)];
    for k in 0..120 {
        s.snake_move_tick(turns[k % turns.len()]);
        let mut body = s.tail();
        body.push((s.head().row, s.head().col));
        for pair in body.windows(2) {
            assert!(torus_neighbours(pair[0], pair[1]), "{:?}", body);
        }
    }
}

#[test]
fn cell_set_from_cells() {
    let mut all: Vec<(i8, i8)> = vec![];
    for r in 0..5 {
        for c in 0..5 {
            if (r, c) != (2, 3) {
                all.push((r, c));
            }
        }
    }
    all.push((0, 0));
    let set = match CellSet::from_cells(&all) {
        Ok(set) => set,
        Err(c) => panic!("24 distinct cells fit, yet {:?} was refused", c),
    };
    // the only free cell is the one the search must find
    let mut rng = Prng::new(1);
    assert_eq!(Position::random(&mut rng, &set), pos(2, 3));
    let many: Vec<(i8, i8)> = (0..33).map(|i| (i, 0)).collect();
    match CellSet::from_cells(&many) {
        Err(c) => assert_eq!(c, (32, 0)),
        Ok(_) => panic!("33 distinct cells do not fit"),
    }
    assert!(CellSet::from_cells(&many[..32]).is_ok());
}

#[test]
fn random_position_from_empty_exclusion() {
    let set = CellSet::from_cells(&[]).ok().unwrap();
    let mut rng = Prng::new(1);
    assert_eq!(Position::random(&mut rng, &set), pos(4, 4));
    assert_eq!(rng.random_u32(), Prng::xorshift32(67634689));
}

#[test]
fn bounded_search() {
    let mut every: Vec<(i8, i8)> = vec![];
    for r in 0..5 {
        for c in 0..5 {
            every.push((r, c));
        }
    }
    let full = CellSet::from_cells(&every).ok().unwrap();
    // every cell excluded: ten draws of two numbers each, then nothing
    let mut rng = Prng::new(1);
    assert_eq!(Position::try_random(&mut rng, &full, 10), None);
    let mut twenty = Prng::new(1);
    for _ in 0..20 {
        twenty.random_u32();
    }
    assert_eq!(rng.random_u32(), twenty.random_u32());
    // no draw at all leaves the generator alone
    let empty = CellSet::from_cells(&[]).ok().unwrap();
    let mut rng = Prng::new(1);
    assert_eq!(Position::try_random(&mut rng, &empty, 0), None);
    assert_eq!(rng.random_u32(), 270369);
    // within the bound it finds what the unbounded search finds
    let mut rng = Prng::new(1);
    assert_eq!(Position::try_random(&mut rng, &empty, 1), Some(pos(4, 4)));
    let others: Vec<(i8, i8)> = every.iter().copied().filter(|c| *c != (2, 3)).collect();
    let set = CellSet::from_cells(&others).ok().unwrap();
    let mut a = Prng::new(1);
    let mut b = Prng::new(1);
    assert_eq!(Position::try_random(&mut a, &set, 1000), Some(Position::random(&mut b, &set)));
    assert_eq!(a.random_u32(), b.random_u32());
}
