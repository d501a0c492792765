use snake_game::game::{board_center, GameState, AUTOPLAY_DEATHS, FOOD_SCORE};
use snake_game::grid::{Direction, Position};
use snake_game::rng::random_cell;
use snake_game::snake::Snake;
use std::time::{Duration, Instant};

fn cells(snake: &Snake) -> Vec<(i32, i32)> {
    snake.body.iter().map(|cell| (cell.x, cell.y)).collect()
}

fn snake_of(cells: &[(i32, i32)], direction: Direction) -> Snake {
    let mut snake = Snake::new(Position { x: cells[0].0, y: cells[0].1 });
    for &(x, y) in &cells[1..] {
        snake.body.push_back(Position { x, y });
    }
    snake.direction = direction;
    snake
}

#[test]
fn new_session_starts_in_the_middle_with_food_on_the_board() {
    for _ in 0..200 {
        let state = GameState::new((10, 6));
        assert_eq!(cells(&state.snake), vec![(5, 3)]);
        assert_eq!(state.snake.direction, Direction::Right);
        assert!(!state.snake.growing);
        assert!(state.snake.last_direction_change.is_none());
        assert!(0 <= state.food.x && state.food.x < 10);
        assert!(0 <= state.food.y && state.food.y < 6);
        assert_eq!(state.score, 0);
        assert_eq!(state.primeagems, 0);
        assert!(!state.game_over);
        assert!(!state.ml_training);
        assert!(state.bot_moves.is_empty());
        assert_eq!(state.death_count, 0);
        assert!(!state.autoplay_enabled);
    }
}

#[test]
fn random_cell_of_a_one_cell_board_is_that_cell() {
    for _ in 0..50 {
        assert_eq!(random_cell((1, 1)), Position { x: 0, y: 0 });
    }
}

#[test]
fn random_cells_stay_on_the_board_and_vary() {
    let mut seen = std::collections::HashSet::new();
    for _ in 0..500 {
        let cell = random_cell((3, 2));
        assert!(0 <= cell.x && cell.x < 3);
        assert!(0 <= cell.y && cell.y < 2);
        seen.insert((cell.x, cell.y));
    }
    assert!(seen.len() > 1);
}

#[test]
fn board_center_halves_each_side() {
    assert_eq!(board_center((30, 30)), Position { x: 15, y: 15 });
    assert_eq!(board_center((10, 10)), Position { x: 5, y: 5 });
    assert_eq!(board_center((7, 1)), Position { x: 3, y: 0 });
}

#[test]
fn eating_scores_and_defers_growth_to_the_next_tick() {
    let mut state = GameState::new((10, 10));
    state.food = Position { x: 6, y: 5 };
    assert_eq!(cells(&state.snake), vec![(5, 5)]);

    state.update((10, 10));
    assert_eq!(cells(&state.snake), vec![(6, 5)]);
    assert_eq!(state.score, 10);
    assert_eq!(state.primeagems, 1);
    assert!(state.snake.growing);
    assert!(!state.game_over);
    assert!(0 <= state.food.x && state.food.x < 10);
    assert!(0 <= state.food.y && state.food.y < 10);

    state.update((10, 10));
    assert_eq!(cells(&state.snake), vec![(7, 5), (6, 5)]);
    assert!(!state.game_over);
}

#[test]
fn eating_adds_exactly_the_food_score_and_one_gem() {
    let now = Instant::now();
    let mut state = GameState::with_food((10, 10), Position { x: 6, y: 5 });
    state.score = 70;
    state.primeagems = 7;
    state.update_at((10, 10), now, Position { x: 2, y: 9 });
    assert_eq!(state.score, 70 + FOOD_SCORE);
    assert_eq!(state.score, 80);
    assert_eq!(state.primeagems, 8);
    assert_eq!(state.food, Position { x: 2, y: 9 });
    assert!(state.snake.growing);
    assert_eq!(state.death_count, 0);
}

#[test]
fn tick_off_the_food_changes_no_counter() {
    let now = Instant::now();
    let mut state = GameState::with_food((10, 10), Position { x: 8, y: 8 });
    state.update_at((10, 10), now, Position { x: 2, y: 9 });
    assert_eq!(cells(&state.snake), vec![(6, 5)]);
    assert_eq!(state.score, 0);
    assert_eq!(state.primeagems, 0);
    assert_eq!(state.food, Position { x: 8, y: 8 });
    assert!(!state.snake.growing);
}

#[test]
fn new_food_usually_differs_from_the_one_eaten() {
    let mut moved_away = 0;
    for _ in 0..100 {
        let mut state = GameState::new((30, 30));
        state.food = Position { x: 16, y: 15 };
        state.update((30, 30));
        assert_eq!(state.score, 10);
        if state.food != (Position { x: 16, y: 15 }) {
            moved_away += 1;
        }
    }
    assert!(moved_away > 50);
}

#[test]
fn collision_ends_the_game_and_freezes_the_snake() {
    let now = Instant::now();
    let mut state = GameState::with_food((10, 10), Position { x: 0, y: 0 });
    state.snake = snake_of(&[(4, 6), (5, 6), (5, 5), (4, 5), (3, 5)], Direction::Up);
    state.score = 30;
    state.update_at((10, 10), now, Position { x: 1, y: 1 });
    assert!(state.game_over);
    assert_eq!(cells(&state.snake), vec![(4, 6), (5, 6), (5, 5), (4, 5), (3, 5)]);
    assert_eq!(state.score, 30);
    assert_eq!(state.death_count, 0);
    assert_eq!(state.food, Position { x: 0, y: 0 });
}

#[test]
fn game_over_tick_respawns_and_moves_nothing() {
    let now = Instant::now();
    let mut state = GameState::with_food((10, 10), Position { x: 5, y: 5 });
    state.snake = snake_of(&[(4, 6), (5, 6), (5, 5), (4, 5), (3, 5)], Direction::Up);
    state.game_over = true;
    state.score = 30;
    state.primeagems = 3;
    state.update_at((10, 10), now, Position { x: 1, y: 1 });
    assert!(!state.game_over);
    assert_eq!(state.death_count, 1);
    assert_eq!(cells(&state.snake), vec![(5, 5)]);
    assert_eq!(state.snake.direction, Direction::Right);
    assert!(state.snake.last_direction_change.is_none());
    assert_eq!(state.score, 30);
    assert_eq!(state.primeagems, 3);
    assert_eq!(state.food, Position { x: 5, y: 5 });
    assert!(!state.autoplay_enabled);
}

#[test]
fn autoplay_switches_on_at_the_fifth_death_and_stays_on() {
    assert_eq!(AUTOPLAY_DEATHS, 5);
    let mut state = GameState::new((10, 10));
    for deaths in 1..=4 {
        state.game_over = true;
        state.update((10, 10));
        assert_eq!(state.death_count, deaths);
        assert!(!state.autoplay_enabled);
    }
    state.game_over = true;
    state.update((10, 10));
    assert_eq!(state.death_count, 5);
    assert!(state.autoplay_enabled);
    for _ in 0..20 {
        state.update((10, 10));
        assert!(state.autoplay_enabled);
    }
    state.game_over = true;
    state.update((10, 10));
    assert_eq!(state.death_count, 6);
    assert!(state.autoplay_enabled);
    state.snake = snake_of(&[(4, 6), (5, 6), (5, 5), (4, 5), (3, 5)], Direction::Up);
    state.food = Position { x: 4, y: 0 };
    state.update((10, 10));
    assert!(state.game_over);
    assert!(state.autoplay_enabled);
}

#[test]
fn bot_closes_the_horizontal_gap_first() {
    let mut state = GameState::with_food((10, 10), Position { x: 8, y: 2 });
    assert_eq!(state.calculate_bot_move((10, 10)), Direction::Right);
    state.food = Position { x: 1, y: 2 };
    state.snake.direction = Direction::Up;
    assert_eq!(state.calculate_bot_move((10, 10)), Direction::Left);
}

#[test]
fn bot_closes_the_vertical_gap_when_the_horizontal_turn_is_a_reversal() {
    let mut state = GameState::with_food((10, 10), Position { x: 1, y: 8 });
    assert_eq!(state.snake.direction, Direction::Right);
    assert_eq!(state.calculate_bot_move((10, 10)), Direction::Down);
    state.food = Position { x: 1, y: 2 };
    assert_eq!(state.calculate_bot_move((10, 10)), Direction::Up);
    state.food = Position { x: 5, y: 2 };
    assert_eq!(state.calculate_bot_move((10, 10)), Direction::Up);
    state.food = Position { x: 5, y: 8 };
    assert_eq!(state.calculate_bot_move((10, 10)), Direction::Down);
}

#[test]
fn bot_falls_back_to_the_first_free_cell_in_fixed_order() {
    let mut state = GameState::with_food((10, 10), Position { x: 1, y: 5 });
    assert_eq!(state.calculate_bot_move((10, 10)), Direction::Up);
    state.snake = snake_of(&[(5, 5), (5, 4), (6, 4)], Direction::Right);
    assert_eq!(state.calculate_bot_move((10, 10)), Direction::Down);
    state.snake = snake_of(&[(5, 5), (5, 4), (5, 6)], Direction::Right);
    assert_eq!(state.calculate_bot_move((10, 10)), Direction::Left);
    state.snake = snake_of(&[(5, 5), (5, 4), (5, 6), (4, 5)], Direction::Right);
    assert_eq!(state.calculate_bot_move((10, 10)), Direction::Right);
}

#[test]
fn bot_keeps_its_heading_when_every_cell_is_taken() {
    let mut state = GameState::with_food((10, 10), Position { x: 1, y: 5 });
    state.snake = snake_of(&[(5, 5), (5, 4), (5, 6), (4, 5), (6, 5)], Direction::Right);
    assert_eq!(state.calculate_bot_move((10, 10)), Direction::Right);
    state.food = Position { x: 5, y: 5 };
    state.snake.direction = Direction::Down;
    assert_eq!(state.calculate_bot_move((10, 10)), Direction::Down);
}

#[test]
fn bot_looks_across_the_edge_of_the_board() {
    let mut state = GameState::with_food((10, 10), Position { x: 0, y: 0 });
    state.snake = snake_of(&[(0, 0), (0, 9), (0, 1)], Direction::Right);
    assert!(!state.is_free(Direction::Up, (10, 10)));
    assert!(!state.is_free(Direction::Down, (10, 10)));
    assert!(state.is_free(Direction::Left, (10, 10)));
    assert_eq!(state.calculate_bot_move((10, 10)), Direction::Left);
}

#[test]
fn autoplay_steers_towards_the_food_and_eats_it() {
    let t0 = Instant::now();
    let mut state = GameState::with_food((10, 10), Position { x: 5, y: 7 });
    state.autoplay_enabled = true;
    state.update_at((10, 10), t0, Position { x: 0, y: 0 });
    assert_eq!(state.snake.direction, Direction::Down);
    assert_eq!(cells(&state.snake), vec![(5, 6)]);
    assert_eq!(state.snake.last_direction_change, Some(t0));
    state.update_at((10, 10), t0 + Duration::from_millis(100), Position { x: 0, y: 0 });
    assert_eq!(cells(&state.snake), vec![(5, 7)]);
    assert_eq!(state.score, 10);
    assert_eq!(state.food, Position { x: 0, y: 0 });
}

#[test]
fn autoplay_turn_is_debounced_like_any_other() {
    let t0 = Instant::now();
    let mut state = GameState::with_food((10, 10), Position { x: 5, y: 7 });
    state.autoplay_enabled = true;
    assert!(state.snake.set_direction_at(Direction::Up, t0));
    state.food = Position { x: 8, y: 5 };
    state.steer((10, 10), t0 + Duration::from_millis(10));
    assert_eq!(state.snake.direction, Direction::Up);
    state.steer((10, 10), t0 + Duration::from_millis(50));
    assert_eq!(state.snake.direction, Direction::Right);
}

#[test]
fn steer_leaves_a_manual_session_alone() {
    let t0 = Instant::now();
    let mut state = GameState::with_food((10, 10), Position { x: 5, y: 7 });
    state.steer((10, 10), t0);
    assert_eq!(state.snake.direction, Direction::Right);
    assert!(state.snake.last_direction_change.is_none());
}

#[test]
fn move_snake_reports_whether_the_head_reached_the_food() {
    let mut state = GameState::with_food((10, 10), Position { x: 7, y: 5 });
    assert!(!state.move_snake((10, 10)));
    assert!(state.move_snake((10, 10)));
    assert_eq!(cells(&state.snake), vec![(7, 5)]);
    assert!(!state.game_over);
}

#[test]
fn eat_and_respawn_do_their_part_alone() {
    let mut state = GameState::with_food((10, 10), Position { x: 7, y: 5 });
    state.eat(Position { x: 3, y: 3 });
    assert_eq!(state.score, 10);
    assert_eq!(state.primeagems, 1);
    assert!(state.snake.growing);
    assert_eq!(state.food, Position { x: 3, y: 3 });
    state.game_over = true;
    state.death_count = 4;
    state.respawn((10, 10));
    assert_eq!(state.death_count, 5);
    assert!(state.autoplay_enabled);
    assert!(!state.game_over);
    assert!(!state.snake.growing);
}

#[test]
fn counters_at_their_limit_leave_no_room_to_count() {
    let mut state = GameState::with_food((10, 10), Position { x: 7, y: 5 });
    assert!(state.can_count());
    state.score = u32::MAX - 10;
    assert!(state.can_count());
    state.score = u32::MAX - 9;
    assert!(!state.can_count());
    state.game_over = true;
    assert!(state.can_count());
    state.death_count = u32::MAX;
    assert!(!state.can_count());
    state.game_over = false;
    state.score = 0;
    state.primeagems = u32::MAX;
    assert!(!state.can_count());
}
