use snake_game::game::{Game, Outcome, State, APPLE_POINTS, TICK_MS};
use snake_game::grid::{Direction, KeyInput, Position, GRID_X, GRID_Y};
use snake_game::orientation::SpriteKind;
use snake_game::snake::SnakeBody;

const NO_KEYS: KeyInput = KeyInput { up: false, down: false, left: false, right: false };

fn positions(g: &Game) -> Vec<(usize, usize)> {
    g.snake.iter().map(|s| (s.pos.x, s.pos.y)).collect()
}

fn head(g: &Game) -> Position {
    g.snake[g.snake.len() - 1].pos
}

fn assert_initial(g: &Game) {
    assert_eq!(positions(g), vec![(3, 3), (3, 4)]);
    assert!(g.snake.iter().all(|s| s.direction == Direction::Down));
    assert_eq!(g.apple, Position::new(3, 7));
    assert_eq!(g.score, 0);
    assert_eq!(g.time_ms, 0);
    assert!(!g.paused);
    assert_eq!(g.next_direction, Direction::Down);
    assert_eq!(g.state, State::Start);
}

#[test]
fn new_game_is_initial() {
    assert_initial(&Game::new());
}

#[test]
fn wrap_right_edge_moves() {
    let mut g = Game::new();
    assert_eq!(g.advance(Direction::Down), Outcome::Moved);
    assert_eq!(head(&g), Position::new(3, 5));
    for _ in 0..6 {
        assert_eq!(g.advance(Direction::Right), Outcome::Moved);
    }
    assert_eq!(head(&g), Position::new(9, 5));
    assert_eq!(g.snake[1].direction, Direction::Right);
    assert_eq!(g.advance(Direction::Right), Outcome::Moved);
    assert_eq!(head(&g), Position::new(0, 5));
    assert_eq!(positions(&g), vec![(9, 5), (0, 5)]);
}

#[test]
fn wrap_top_edge_moves() {
    let mut g = Game::new();
    g.apple = Position::new(8, 8);
    assert_eq!(g.advance(Direction::Right), Outcome::Moved);
    for _ in 0..4 {
        assert_eq!(g.advance(Direction::Up), Outcome::Moved);
    }
    assert_eq!(head(&g), Position::new(4, 0));
    assert_eq!(g.advance(Direction::Up), Outcome::Moved);
    assert_eq!(head(&g), Position::new(4, 9));
}

#[test]
fn moved_shifts_segments() {
    let mut g = Game::new();
    assert_eq!(g.advance(Direction::Right), Outcome::Moved);
    assert_eq!(
        g.snake,
        vec![SnakeBody::new(3, 4, Direction::Right), SnakeBody::new(4, 4, Direction::Right)]
    );
    assert_eq!(g.score, 0);
    assert_eq!(g.apple, Position::new(3, 7));
}

#[test]
fn eat_apple_grows_and_scores() {
    let mut g = Game::new();
    assert_eq!(g.advance(Direction::Down), Outcome::Moved);
    assert_eq!(g.advance(Direction::Down), Outcome::Moved);
    assert_eq!(g.score, 0);
    assert_eq!(g.advance(Direction::Down), Outcome::Ate);
    assert_eq!(g.score, 100);
    assert_eq!(g.snake.len(), 3);
    assert_eq!(positions(&g), vec![(3, 5), (3, 6), (3, 7)]);
    assert!(g.apple.x < GRID_X && g.apple.y < GRID_Y);
    assert!(!g.occupies(g.apple));
    assert_eq!(g.state, State::Start);
}

#[test]
fn eat_keeps_tail_and_turns_old_head() {
    let mut g = Game::new();
    g.apple = Position::new(4, 4);
    assert_eq!(g.advance(Direction::Right), Outcome::Ate);
    assert_eq!(
        g.snake,
        vec![
            SnakeBody::new(3, 3, Direction::Down),
            SnakeBody::new(3, 4, Direction::Right),
            SnakeBody::new(4, 4, Direction::Right),
        ]
    );
    assert_eq!(g.score, APPLE_POINTS);
}

#[test]
fn new_apple_never_on_snake() {
    for _ in 0..50 {
        let mut g = Game::new();
        g.apple = Position::new(3, 5);
        assert_eq!(g.advance(Direction::Down), Outcome::Ate);
        assert!(!g.occupies(g.apple));
        assert!(g.apple.x < GRID_X && g.apple.y < GRID_Y);
    }
}

fn playing_game_with_three_segments() -> Game {
    let mut g = Game::new();
    g.apple = Position::new(3, 5);
    g.confirm();
    assert_eq!(g.state, State::Playing);
    assert_eq!(g.advance(Direction::Down), Outcome::Ate);
    assert_eq!(positions(&g), vec![(3, 3), (3, 4), (3, 5)]);
    g
}

#[test]
fn reversal_into_body_collides() {
    let mut g = playing_game_with_three_segments();
    let before = g.snake.clone();
    let apple = g.apple;
    assert_eq!(g.advance(Direction::Up), Outcome::Collided);
    assert_eq!(g.state, State::GameOver);
    assert!(g.paused);
    assert_eq!(g.snake, before);
    assert_eq!(g.apple, apple);
    assert_eq!(g.score, 100);
}

#[test]
fn tick_collision_ends_game() {
    let mut g = playing_game_with_three_segments();
    g.next_direction = Direction::Up;
    g.time_ms = TICK_MS + 1;
    assert_eq!(g.update(NO_KEYS, 16), Some(Outcome::Collided));
    assert_eq!(g.state, State::GameOver);
    assert!(g.paused);
    assert_eq!(g.time_ms, 16);
    // a finished game stands still while its clock runs on
    let before = g.snake.clone();
    g.time_ms = TICK_MS + 1;
    assert_eq!(g.update(NO_KEYS, 16), None);
    assert_eq!(g.time_ms, TICK_MS + 17);
    assert_eq!(g.snake, before);
    assert_eq!(g.state, State::GameOver);
}

#[test]
fn entering_tail_cell_collides() {
    // a square of four: the head's next cell is the tail's cell
    let mut g = Game::new();
    g.apple = Position::new(3, 5);
    assert_eq!(g.advance(Direction::Down), Outcome::Ate);
    g.apple = Position::new(4, 5);
    assert_eq!(g.advance(Direction::Right), Outcome::Ate);
    assert_eq!(positions(&g), vec![(3, 3), (3, 4), (3, 5), (4, 5)]);
    g.apple = Position::new(0, 0);
    assert_eq!(g.advance(Direction::Up), Outcome::Moved);
    assert_eq!(positions(&g), vec![(3, 4), (3, 5), (4, 5), (4, 4)]);
    assert_eq!(g.advance(Direction::Left), Outcome::Collided);
}

#[test]
fn confirm_cycles_states() {
    let mut g = Game::new();
    g.confirm();
    assert_eq!(g.state, State::Playing);
    assert!(!g.paused);
    g.confirm();
    assert_eq!(g.state, State::Paused);
    assert!(g.paused);
    g.confirm();
    assert_eq!(g.state, State::Playing);
    assert!(!g.paused);
}

#[test]
fn confirm_after_game_over_resets() {
    let mut g = playing_game_with_three_segments();
    g.time_ms = 321;
    g.next_direction = Direction::Up;
    assert_eq!(g.advance(Direction::Up), Outcome::Collided);
    g.confirm();
    assert_initial(&g);
}

#[test]
fn clock_gates_movement() {
    let mut g = Game::new();
    g.confirm();
    assert_eq!(g.update(NO_KEYS, 300), None);
    assert_eq!(g.time_ms, 300);
    assert_eq!(g.update(NO_KEYS, 199), None);
    assert_eq!(g.time_ms, 499);
    assert_eq!(g.update(NO_KEYS, 1), None);
    assert_eq!(g.time_ms, 500);
    assert_eq!(head(&g), Position::new(3, 4));
    // exactly one tick is enough
    assert_eq!(g.update(NO_KEYS, 10), Some(Outcome::Moved));
    assert_eq!(g.time_ms, 10);
    assert_eq!(head(&g), Position::new(3, 5));
}

#[test]
fn clock_saturates() {
    let mut g = Game::new();
    g.confirm();
    g.confirm();
    g.time_ms = u32::MAX - 5;
    assert_eq!(g.update(NO_KEYS, 100), None);
    assert_eq!(g.time_ms, u32::MAX);
}

#[test]
fn paused_keeps_snake_but_takes_keys() {
    let mut g = Game::new();
    g.confirm();
    g.confirm();
    assert_eq!(g.state, State::Paused);
    g.time_ms = 10_000;
    let keys = KeyInput { up: false, down: false, left: true, right: false };
    assert_eq!(g.update(keys, 16), None);
    assert_eq!(positions(&g), vec![(3, 3), (3, 4)]);
    assert_eq!(g.next_direction, Direction::Left);
    assert_eq!(g.time_ms, 10_016);
    g.confirm();
    assert_eq!(g.update(NO_KEYS, 16), Some(Outcome::Moved));
    assert_eq!(head(&g), Position::new(2, 4));
}

#[test]
fn start_state_stands_still_clock_runs() {
    let mut g = Game::new();
    g.time_ms = 900;
    let keys = KeyInput { up: false, down: false, left: true, right: false };
    assert_eq!(g.update(keys, 16), None);
    assert_eq!(g.time_ms, 916);
    assert_eq!(g.next_direction, Direction::Down);
    assert_eq!(g.state, State::Start);
    assert_eq!(positions(&g), vec![(3, 3), (3, 4)]);
}

#[test]
fn reverse_key_ignored_in_tick() {
    let mut g = Game::new();
    g.confirm();
    g.time_ms = TICK_MS + 1;
    let keys = KeyInput { up: true, down: false, left: false, right: false };
    assert_eq!(g.update(keys, 0), Some(Outcome::Moved));
    assert_eq!(head(&g), Position::new(3, 5));
}

#[test]
fn filling_board_ends_game() {
    // a path through every cell, row by row, turning at the ends
    let mut path = Vec::new();
    for y in 0..GRID_Y {
        for i in 0..GRID_X {
            let x = if y % 2 == 0 { i } else { GRID_X - 1 - i };
            path.push(Position::new(x, y));
        }
    }
    let n = GRID_X * GRID_Y;
    let mut snake = Vec::new();
    for i in 0..n - 1 {
        let here = path[i];
        let next = path[i + 1];
        let d = [Direction::Up, Direction::Down, Direction::Left, Direction::Right]
            .into_iter()
            .find(|d| here.step(*d) == next)
            .unwrap();
        snake.push(SnakeBody::new(here.x, here.y, d));
    }
    let mut g = Game::new();
    g.snake = snake;
    g.apple = path[n - 1];
    g.score = APPLE_POINTS * (n - 1 - 2);
    g.confirm();
    assert_eq!(g.advance(Direction::Left), Outcome::Ate);
    assert_eq!(g.snake.len(), n);
    assert_eq!(g.score, APPLE_POINTS * (n - 2));
    assert_eq!(g.state, State::GameOver);
    assert!(g.paused);
}

#[test]
fn sprites_of_bent_snake() {
    let mut g = Game::new();
    g.apple = Position::new(3, 5);
    assert_eq!(g.advance(Direction::Down), Outcome::Ate);
    g.apple = Position::new(4, 5);
    assert_eq!(g.advance(Direction::Right), Outcome::Ate);
    // (3,3) tail, (3,4) straight, (3,5) turns from above to the right, (4,5) head
    assert_eq!(g.get_snake_body(1), (SpriteKind::StraightBody, 270));
    assert_eq!(g.get_snake_body(2), (SpriteKind::CurvedBody, 0));
    let sprites = g.snake_sprites();
    assert_eq!(
        sprites,
        vec![
            (Position::new(3, 3), SpriteKind::Tail, 270),
            (Position::new(3, 4), SpriteKind::StraightBody, 270),
            (Position::new(3, 5), SpriteKind::CurvedBody, 0),
            (Position::new(4, 5), SpriteKind::Head, 0),
        ]
    );
}

#[test]
fn segment_at_finds_index() {
    let g = playing_game_with_three_segments();
    assert_eq!(g.segment_at(Position::new(3, 3)), Some(0));
    assert_eq!(g.segment_at(Position::new(3, 5)), Some(2));
    assert_eq!(g.segment_at(Position::new(0, 0)), None);
}

#[test]
fn tick_at_exact_threshold_moves() {
    let mut g = Game::new();
    g.confirm();
    g.time_ms = TICK_MS;
    assert_eq!(g.update(NO_KEYS, 7), Some(Outcome::Moved));
    assert_eq!(head(&g), Position::new(3, 5));
    assert_eq!(g.time_ms, 7);
}

#[test]
fn start_clock_saturates() {
    let mut g = Game::new();
    g.time_ms = u32::MAX - 1;
    assert_eq!(g.update(NO_KEYS, 10), None);
    assert_eq!(g.time_ms, u32::MAX);
}
