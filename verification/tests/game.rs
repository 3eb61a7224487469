use snake_core::coord::Coord;
use snake_core::coord::Direction;
use snake_core::game::Game;
use snake_core::game::GameState;

fn c(x: i16, y: i16) -> Coord {
    Coord { x, y }
}

/// Steers one lap around the four cells (0,0) (1,0) (1,1) (0,1) of a 1x1-grid
/// game whose head sits at (0,0). The fruit on a 1x1 grid is always (0,0), so
/// the lap ends with the snake eating and growing by one.
fn lap(g: &mut Game) {
    g.try_set_direction(Direction::Right);
    g.tick();
    g.try_set_direction(Direction::Down);
    g.tick();
    g.try_set_direction(Direction::Left);
    g.tick();
    g.try_set_direction(Direction::Up);
    g.tick();
}

#[test]
fn new_fruit_is_in_bounds() {
    for seed in 0..64u64 {
        let g = Game::new(12, 9, seed);
        assert!(g.fruit.x >= 0 && g.fruit.x < 12, "fruit x out of grid: {:?}", g.fruit);
        assert!(g.fruit.y >= 0 && g.fruit.y < 9, "fruit y out of grid: {:?}", g.fruit);
    }
}

#[test]
fn new_on_single_cell_grid_puts_fruit_at_origin() {
    for seed in 0..16u64 {
        let g = Game::new(1, 1, seed);
        assert_eq!(g.fruit, c(0, 0));
    }
}

#[test]
fn new_starts_at_origin_heading_right() {
    let g = Game::new(20, 15, 42);
    assert_eq!(g.head, c(0, 0));
    assert_eq!(g.dir, Direction::Right);
    assert!(g.body.is_empty());
    assert_eq!(g.speed_micros, 150_000);
    assert_eq!(g.state, GameState::Playing);
    assert_eq!(g.score(), 1);
}

#[test]
fn first_tick_moves_head_right() {
    let mut g = Game::with_fruit(20, 20, c(5, 5));
    g.tick();
    assert_eq!(g.head, c(1, 0));
    assert!(g.body.is_empty());
    assert_eq!(g.speed_micros, 150_000);
    assert_eq!(g.state, GameState::Playing);
    assert_eq!(g.score(), 1);
}

#[test]
fn eating_fruit_grows_and_speeds_up() {
    let mut g = Game::with_fruit(20, 20, c(2, 0));
    g.tick();
    assert_eq!(g.head, c(1, 0));
    g.tick();
    assert_eq!(g.head, c(2, 0));
    assert_eq!(g.body, vec![c(1, 0)]);
    assert_eq!(g.speed_micros, 127_500);
    assert_eq!(g.score(), 2);
    assert_eq!(g.state, GameState::Playing);
    assert!(g.fruit.x >= 0 && g.fruit.x < 20);
    assert!(g.fruit.y >= 0 && g.fruit.y < 20);
}

#[test]
fn non_fruit_tick_keeps_length() {
    let mut g = Game::with_fruit(1, 1, c(0, 0));
    lap(&mut g);
    assert_eq!(g.body.len(), 1);
    // Head is back at the fruit cell (0,0); one more step right misses it.
    g.try_set_direction(Direction::Right);
    g.tick();
    assert_eq!(g.head, c(1, 0));
    assert_eq!(g.body.len(), 1);
    assert_eq!(g.body, vec![c(0, 0)]);
    assert_eq!(g.speed_micros, 127_500);
}

#[test]
fn speed_decreases_on_each_fruit() {
    let mut g = Game::with_fruit(1, 1, c(0, 0));
    lap(&mut g);
    assert_eq!(g.speed_micros, 127_500);
    lap(&mut g);
    assert_eq!(g.speed_micros, 108_375);
    lap(&mut g);
    assert_eq!(g.speed_micros, 92_118);
}

#[test]
fn score_is_body_length_plus_one() {
    let mut g = Game::with_fruit(1, 1, c(0, 0));
    assert_eq!(g.score(), g.body.len() + 1);
    for _ in 0..3 {
        lap(&mut g);
        assert_eq!(g.score(), g.body.len() + 1);
    }
    assert_eq!(g.score(), 4);
}

#[test]
fn running_into_own_body_ends_the_game() {
    let mut g = Game::with_fruit(1, 1, c(0, 0));
    for _ in 0..3 {
        lap(&mut g);
        assert_eq!(g.state, GameState::Playing);
    }
    // Body now fills three of the four lap cells; the next arrival at (0,0)
    // eats again, so the tail cell (0,0) stays put and the head lands on it.
    lap(&mut g);
    assert_eq!(g.state, GameState::GameOver);
    assert_eq!(g.head, c(0, 0));
    assert_eq!(g.body.len(), 4);
    assert!(g.body.contains(&c(0, 0)));
}

#[test]
fn no_tick_happens_while_lost() {
    let mut g = Game::with_fruit(1, 1, c(0, 0));
    for _ in 0..4 {
        lap(&mut g);
    }
    assert_eq!(g.state, GameState::GameOver);
    let head = g.head;
    let body = g.body.clone();
    let input = snake_core::game::FrameInput {
        up: true,
        down: false,
        left: false,
        right: false,
        boost: false,
        restart: false,
    };
    let ticked = g.frame(input, 1_000_000, 9);
    assert!(!ticked);
    assert_eq!(g.state, GameState::GameOver);
    assert_eq!(g.head, head);
    assert_eq!(g.body, body);
}

#[test]
fn restart_resets_everything_but_the_grid() {
    let mut g = Game::with_fruit(1, 1, c(0, 0));
    for _ in 0..4 {
        lap(&mut g);
    }
    assert_eq!(g.state, GameState::GameOver);
    g.restart(5);
    assert_eq!(g.head, c(0, 0));
    assert_eq!(g.dir, Direction::Right);
    assert!(g.body.is_empty());
    assert_eq!(g.speed_micros, 150_000);
    assert_eq!(g.state, GameState::Playing);
    assert_eq!(g.fruit, c(0, 0));
    assert_eq!(g.grid_width, 1);
    assert_eq!(g.grid_height, 1);
    assert_eq!(g.score(), 1);
}

#[test]
fn fruit_may_start_under_the_head() {
    // Nothing keeps a fresh fruit off the snake; on a one-cell grid it always
    // shares the origin with the head.
    let g = Game::with_fruit(1, 1, c(0, 0));
    assert_eq!(g.fruit, g.head);
    assert_eq!(g.state, GameState::Playing);
}
