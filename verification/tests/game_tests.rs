use snake::Direction;
use snake::RngSource;
use snake::SnakeGame;
use snake::ThreadRandom;

/// A deterministic random source for tests: hands out the scripted
/// values in order (reduced into range), then zeroes.
struct ScriptedRng {
    values: Vec<u32>,
    next: usize,
}

impl ScriptedRng {
    fn new(values: Vec<u32>) -> ScriptedRng {
        ScriptedRng { values, next: 0 }
    }
}

impl RngSource for ScriptedRng {
    fn next_below(&mut self, n: u32) -> u32 {
        let v = if self.next < self.values.len() {
            self.values[self.next]
        } else {
            0
        };
        self.next += 1;
        v % n
    }
}

/// The body as (x, y) pairs, head first.
fn body_pairs(game: &SnakeGame) -> Vec<(u32, u32)> {
    let flat = game.get_snake_cells();
    assert!(flat.len() % 2 == 0);
    let mut pairs = Vec::new();
    let mut i = 0;
    while i < flat.len() {
        pairs.push((flat[i], flat[i + 1]));
        i += 2;
    }
    pairs
}

fn body_holds(game: &SnakeGame, cell: (u32, u32)) -> bool {
    body_pairs(game).contains(&cell)
}

#[test]
fn new_game_has_initial_state() {
    let mut rng = ScriptedRng::new(vec![0, 0]);
    let game = SnakeGame::new(20, 15, &mut rng);
    assert_eq!(game.get_width(), 20);
    assert_eq!(game.get_height(), 15);
    assert_eq!(game.get_score(), 0);
    assert!(!game.is_game_over());
    assert_eq!(game.get_snake_cells(), vec![10, 8, 9, 8, 8, 8]);
    assert_eq!((game.food_x(), game.food_y()), (0, 0));
}

#[test]
fn food_starts_off_the_body() {
    // The script aims the first food at a body cell; the sampler must
    // reject it and take the next free one.
    let mut rng = ScriptedRng::new(vec![9, 8, 5, 5]);
    let game = SnakeGame::new(20, 15, &mut rng);
    assert_eq!((game.food_x(), game.food_y()), (5, 5));
    assert!(!body_holds(&game, (5, 5)));
}

#[test]
fn boundary_collision_ends_game() {
    // Head starts at x = 10 on a 20-wide grid, heading right: nine
    // ticks reach the last column, the tenth crosses the edge.
    let mut rng = ScriptedRng::new(vec![0, 0]);
    let mut game = SnakeGame::new(20, 15, &mut rng);
    for _ in 0..9 {
        game.tick(&mut rng);
        assert!(!game.is_game_over());
    }
    assert_eq!(game.get_snake_cells()[0], 19);
    let score_before = game.get_score();
    let cells_before = game.get_snake_cells();
    game.tick(&mut rng);
    assert!(game.is_game_over());
    assert_eq!(game.get_score(), score_before);
    assert_eq!(game.get_snake_cells(), cells_before);
}

#[test]
fn self_collision_ends_game() {
    // Two scripted meals stretch the snake to five cells, then a
    // down-left-up hook steers the head onto its own body.
    let mut rng = ScriptedRng::new(vec![11, 8, 12, 8, 0, 0]);
    let mut game = SnakeGame::new(30, 15, &mut rng);
    game.tick(&mut rng);
    game.tick(&mut rng);
    assert_eq!(game.get_score(), 2);
    assert_eq!(body_pairs(&game).len(), 5);

    game.change_direction(Direction::Down);
    game.tick(&mut rng);
    game.change_direction(Direction::Left);
    game.tick(&mut rng);
    assert!(!game.is_game_over());
    assert!(body_holds(&game, (11, 8)));
    game.change_direction(Direction::Up);
    game.tick(&mut rng);
    assert!(game.is_game_over());
}

#[test]
fn eating_food_grows_body_and_score() {
    // Food scripted one cell ahead of the head, then at the origin.
    let mut rng = ScriptedRng::new(vec![11, 8, 0, 0]);
    let mut game = SnakeGame::new(30, 15, &mut rng);
    assert_eq!((game.food_x(), game.food_y()), (11, 8));
    game.tick(&mut rng);
    assert_eq!(game.get_score(), 1);
    assert_eq!(body_pairs(&game).len(), 4);
    assert_eq!(game.get_snake_cells()[0], 11);
    let food = (game.food_x(), game.food_y());
    assert_eq!(food, (0, 0));
    assert!(!body_holds(&game, food));
}

#[test]
fn plain_move_keeps_length_and_drops_tail() {
    let mut rng = ScriptedRng::new(vec![0, 0]);
    let mut game = SnakeGame::new(30, 15, &mut rng);
    assert!(body_holds(&game, (8, 8)));
    game.tick(&mut rng);
    assert_eq!(game.get_score(), 0);
    assert_eq!(body_pairs(&game).len(), 3);
    assert_eq!(game.get_snake_cells(), vec![11, 8, 10, 8, 9, 8]);
    assert!(!body_holds(&game, (8, 8)));
}

#[test]
fn reversal_request_is_rejected() {
    let mut rng = ScriptedRng::new(vec![0, 0]);
    let mut game = SnakeGame::new(30, 15, &mut rng);
    game.change_direction(Direction::Left);
    game.tick(&mut rng);
    // The head moved right, not left.
    assert_eq!(game.get_snake_cells()[0], 11);
    assert_eq!(game.get_snake_cells()[1], 8);
}

#[test]
fn only_last_request_before_tick_counts() {
    let mut rng = ScriptedRng::new(vec![0, 0]);
    let mut game = SnakeGame::new(30, 15, &mut rng);
    game.change_direction(Direction::Down);
    game.change_direction(Direction::Up);
    game.tick(&mut rng);
    assert_eq!(game.get_snake_cells()[0], 10);
    assert_eq!(game.get_snake_cells()[1], 7);
}

#[test]
fn terminal_state_absorbs_all_calls() {
    let mut rng = ScriptedRng::new(vec![0, 0]);
    let mut game = SnakeGame::new(20, 15, &mut rng);
    game.change_direction(Direction::Up);
    for _ in 0..9 {
        game.tick(&mut rng);
    }
    assert!(game.is_game_over());
    let cells = game.get_snake_cells();
    let food = (game.food_x(), game.food_y());
    let score = game.get_score();
    game.tick(&mut rng);
    game.change_direction(Direction::Down);
    game.tick(&mut rng);
    assert!(game.is_game_over());
    assert_eq!(game.get_snake_cells(), cells);
    assert_eq!((game.food_x(), game.food_y()), food);
    assert_eq!(game.get_score(), score);
}

#[test]
fn food_never_on_body_with_thread_rng() {
    let mut rng = ThreadRandom;
    let mut game = SnakeGame::new(20, 15, &mut rng);
    for _ in 0..40 {
        let food = (game.food_x(), game.food_y());
        assert!(food.0 < 20 && food.1 < 15);
        assert!(!body_holds(&game, food));
        for &(x, y) in body_pairs(&game).iter() {
            assert!(x < 20 && y < 15);
        }
        if game.is_game_over() {
            break;
        }
        game.tick(&mut rng);
    }
}

#[test]
fn opposite_pairs_are_fixed() {
    assert_eq!(Direction::Up.opposite(), Direction::Down);
    assert_eq!(Direction::Down.opposite(), Direction::Up);
    assert_eq!(Direction::Left.opposite(), Direction::Right);
    assert_eq!(Direction::Right.opposite(), Direction::Left);
}
