use std::collections::VecDeque;

use snake_rogue::game::{kind_from_roll, PowerUp, PowerUpSpot, SnakeGame, POWER_UP_MS};
use snake_rogue::grid::{Cell, Direction, GRID_SIZE};

fn cell(x: usize, y: usize) -> Cell {
    Cell { x, y }
}

fn game_with(cells: &[(usize, usize)], direction: Direction, food: (usize, usize)) -> SnakeGame {
    let mut g = SnakeGame::new();
    let mut snake = VecDeque::new();
    for &(x, y) in cells {
        snake.push_back(cell(x, y));
    }
    g.snake = snake;
    g.direction = direction;
    g.next_direction = direction;
    g.food = cell(food.0, food.1);
    g
}

fn cells_of(g: &SnakeGame) -> Vec<(usize, usize)> {
    g.snake.iter().map(|c| (c.x, c.y)).collect()
}

fn has_duplicates(g: &SnakeGame) -> bool {
    let v = cells_of(g);
    (0..v.len()).any(|i| (i + 1..v.len()).any(|j| v[i] == v[j]))
}

#[test]
fn new_game_starts_fresh() {
    let g = SnakeGame::new();
    assert_eq!(cells_of(&g), vec![(15, 15), (14, 15), (13, 15)]);
    assert_eq!(g.direction, Direction::Right);
    assert_eq!(g.next_direction, Direction::Right);
    assert_eq!(g.score, 0);
    assert_eq!(g.high_score, 0);
    assert_eq!(g.level, 1);
    assert_eq!(g.speed_milli, 1100);
    assert!(!g.game_over && !g.paused && !g.invincibility);
    assert!(g.power_up.is_none());
    assert!(g.food.x >= 1 && g.food.x < GRID_SIZE - 1);
    assert!(g.food.y >= 1 && g.food.y < GRID_SIZE - 1);
    assert!(!g.snake.contains(&g.food));
}

#[test]
fn new_games_draw_different_food() {
    let first = SnakeGame::new().food;
    let differs = (0..200).any(|_| SnakeGame::new().food != first);
    assert!(differs);
}

#[test]
fn plain_move_keeps_length() {
    let mut g = game_with(&[(10, 10), (9, 10), (8, 10)], Direction::Right, (3, 3));
    g.update(100);
    assert_eq!(cells_of(&g), vec![(11, 10), (10, 10), (9, 10)]);
    assert_eq!(g.score, 0);
    assert_eq!(g.food, cell(3, 3));
}

#[test]
fn eating_grows_by_one_and_moves_food() {
    let mut g = game_with(&[(10, 10), (9, 10), (8, 10)], Direction::Right, (11, 10));
    g.update(100);
    assert_eq!(cells_of(&g), vec![(11, 10), (10, 10), (9, 10), (8, 10)]);
    assert_eq!(g.score, 10);
    assert_eq!(g.eating_animation, 1000);
    assert_ne!(g.food, cell(11, 10));
    assert!(!g.snake.contains(&g.food));
    assert!(g.food.x >= 1 && g.food.x < GRID_SIZE - 1 && g.food.y >= 1 && g.food.y < GRID_SIZE - 1);
}

#[test]
fn double_points_on_board_doubles_award() {
    let mut g = game_with(&[(10, 10), (9, 10), (8, 10)], Direction::Right, (11, 10));
    g.power_up = Some(PowerUpSpot { kind: PowerUp::DoublePoints, cell: cell(20, 20) });
    g.power_up_timer_ms = POWER_UP_MS;
    g.update(100);
    assert_eq!(g.score, 20);
}

fn level_after_meal(score: u32) -> (u32, u32) {
    let mut g = game_with(&[(10, 10), (9, 10), (8, 10)], Direction::Right, (11, 10));
    g.score = score;
    g.level = score / 100 + 1;
    g.speed_milli = 1000 + 100 * g.level as u64;
    g.update(100);
    (g.score, g.level)
}

#[test]
fn level_follows_score() {
    assert_eq!(level_after_meal(90), (100, 2));
    assert_eq!(level_after_meal(189), (199, 2));
    assert_eq!(level_after_meal(190), (200, 3));
}

#[test]
fn meal_sets_speed_of_level() {
    let mut g = game_with(&[(10, 10), (9, 10), (8, 10)], Direction::Right, (11, 10));
    g.score = 90;
    g.update(100);
    assert_eq!(g.level, 2);
    assert_eq!(g.speed_milli, 1200);
}

#[test]
fn reversal_is_rejected() {
    let mut g = SnakeGame::new();
    g.set_next_direction(Direction::Left);
    assert_eq!(g.next_direction, Direction::Right);
    g.set_next_direction(Direction::Up);
    assert_eq!(g.next_direction, Direction::Up);
    g.set_next_direction(Direction::Left);
    assert_eq!(g.next_direction, Direction::Up);
    let mut h = SnakeGame::new();
    h.set_next_direction(Direction::Down);
    assert_eq!(h.next_direction, Direction::Down);
}

#[test]
fn wall_clamps_head() {
    let mut g = game_with(&[(0, 5), (1, 5), (2, 5)], Direction::Left, (20, 20));
    g.update(100);
    assert_eq!(g.snake[0], cell(0, 5));
    assert_eq!(cells_of(&g), vec![(0, 5), (1, 5), (2, 5)]);
    assert!(!g.game_over);
}

#[test]
fn self_collision_ends_game_without_moving() {
    let mut g = game_with(&[(5, 5), (4, 5), (3, 5), (2, 5), (1, 5)], Direction::Right, (20, 20));
    g.set_next_direction(Direction::Down);
    g.update(100);
    g.set_next_direction(Direction::Left);
    g.update(100);
    assert_eq!(cells_of(&g), vec![(4, 6), (5, 6), (5, 5), (4, 5), (3, 5)]);
    g.set_next_direction(Direction::Up);
    g.update(100);
    assert!(g.game_over);
    assert_eq!(cells_of(&g), vec![(4, 6), (5, 6), (5, 5), (4, 5), (3, 5)]);
}

#[test]
fn ended_or_paused_game_does_not_change() {
    let mut g = game_with(&[(10, 10), (9, 10), (8, 10)], Direction::Right, (3, 3));
    g.toggle_pause();
    assert!(g.paused);
    g.update(100);
    assert_eq!(cells_of(&g), vec![(10, 10), (9, 10), (8, 10)]);
    g.toggle_pause();
    assert!(!g.paused);
    g.game_over = true;
    g.toggle_pause();
    assert!(!g.paused);
    g.update(100);
    assert_eq!(cells_of(&g), vec![(10, 10), (9, 10), (8, 10)]);
}

#[test]
fn speed_power_up_expires_to_level_speed() {
    let mut g = game_with(&[(10, 10), (9, 10), (8, 10)], Direction::Right, (3, 3));
    g.power_up = Some(PowerUpSpot { kind: PowerUp::Speed, cell: cell(11, 10) });
    g.power_up_timer_ms = POWER_UP_MS;
    g.update(100);
    assert!(g.power_up.is_none());
    assert_eq!(g.speed_milli, 1650);
    for _ in 0..99 {
        g.update(100);
    }
    assert_eq!(g.power_up_timer_ms, 0);
    assert_eq!(g.speed_milli, 1000 + 100 * g.level as u64);
    assert!(!g.invincibility);
    assert!(g.power_up.is_none());
}

#[test]
fn slow_and_invincible_power_ups() {
    let mut g = game_with(&[(10, 10), (9, 10), (8, 10)], Direction::Right, (3, 3));
    g.power_up = Some(PowerUpSpot { kind: PowerUp::Slow, cell: cell(11, 10) });
    g.power_up_timer_ms = POWER_UP_MS;
    g.update(100);
    assert_eq!(g.speed_milli, 770);
    let mut h = game_with(&[(10, 10), (9, 10), (8, 10)], Direction::Right, (3, 3));
    h.power_up = Some(PowerUpSpot { kind: PowerUp::Invincible, cell: cell(11, 10) });
    h.power_up_timer_ms = POWER_UP_MS;
    h.update(100);
    assert!(h.invincibility);
    assert!(h.power_up.is_none());
}

#[test]
fn invincible_snake_passes_itself() {
    let mut g = game_with(&[(5, 5), (4, 5), (3, 5), (2, 5), (1, 5)], Direction::Right, (20, 20));
    g.invincibility = true;
    g.power_up_timer_ms = POWER_UP_MS;
    g.set_next_direction(Direction::Down);
    g.update(100);
    g.set_next_direction(Direction::Left);
    g.update(100);
    g.set_next_direction(Direction::Up);
    g.update(100);
    assert!(!g.game_over);
    assert_eq!(g.snake[0], cell(4, 5));
}

#[test]
fn reset_keeps_best_score() {
    let mut g = game_with(&[(5, 5), (4, 5), (3, 5), (2, 5)], Direction::Right, (20, 20));
    g.score = 50;
    g.high_score = 30;
    g.level = 1;
    g.game_over = true;
    g.reset();
    assert_eq!(cells_of(&g), vec![(15, 15), (14, 15), (13, 15)]);
    assert_eq!(g.score, 0);
    assert_eq!(g.level, 1);
    assert_eq!(g.high_score, 50);
    assert!(!g.game_over && !g.paused);
    g.score = 20;
    g.reset();
    assert_eq!(g.high_score, 50);
}

#[test]
fn pause_key_restarts_after_game_over() {
    let mut g = SnakeGame::new();
    g.pause_or_restart();
    assert!(g.paused);
    g.pause_or_restart();
    assert!(!g.paused);
    g.score = 40;
    g.game_over = true;
    g.pause_or_restart();
    assert!(!g.game_over);
    assert_eq!(g.score, 0);
    assert_eq!(g.high_score, 40);
}

#[test]
fn random_play_keeps_food_off_snake() {
    let turns = [Direction::Up, Direction::Left, Direction::Down, Direction::Right];
    for round in 0..20 {
        let mut g = SnakeGame::new();
        let mut ever_invincible = false;
        for step in 0..300usize {
            if step % 7 == 0 {
                g.set_next_direction(turns[(step / 7 + round) % 4]);
            }
            let before = g.snake.len();
            let food = g.food;
            let over = g.game_over;
            ever_invincible = ever_invincible || g.invincibility;
            g.update(100);
            if !over && !g.game_over {
                let ate = g.snake[0] == food;
                assert_eq!(g.snake.len(), before + if ate { 1 } else { 0 });
            }
            assert!(!g.snake.contains(&g.food));
            if !ever_invincible && !g.game_over {
                assert!(!has_duplicates(&g));
            }
        }
    }
}

#[test]
fn food_placement_needs_free_cell() {
    let mut g = game_with(&[(10, 10), (9, 10), (8, 10)], Direction::Right, (3, 3));
    assert!(!g.place_food(cell(9, 10)));
    assert_eq!(g.food, cell(3, 3));
    assert!(!g.place_food(cell(30, 2)));
    assert!(g.place_food(cell(4, 4)));
    assert_eq!(g.food, cell(4, 4));
}

#[test]
fn first_free_cell_scans_columns() {
    let g = game_with(&[(0, 0), (0, 1), (1, 1)], Direction::Right, (3, 3));
    assert_eq!(g.first_free_cell(), Some(cell(0, 2)));
    let mut full = SnakeGame::new();
    let mut snake = VecDeque::new();
    for x in 0..GRID_SIZE {
        for y in 0..GRID_SIZE {
            snake.push_back(cell(x, y));
        }
    }
    full.snake = snake;
    assert_eq!(full.first_free_cell(), None);
}

#[test]
fn power_up_placement_needs_free_cell() {
    let mut g = game_with(&[(10, 10), (9, 10), (8, 10)], Direction::Right, (3, 3));
    assert!(!g.place_power_up(cell(9, 10), PowerUp::Speed));
    assert!(!g.place_power_up(cell(3, 3), PowerUp::Speed));
    assert!(!g.place_power_up(cell(0, 4), PowerUp::Speed));
    assert!(g.power_up.is_none());
    assert!(g.place_power_up(cell(5, 5), PowerUp::Slow));
    assert_eq!(g.power_up, Some(PowerUpSpot { kind: PowerUp::Slow, cell: cell(5, 5) }));
    assert_eq!(g.power_up_timer_ms, 10000);
    assert!(!g.place_power_up(cell(6, 6), PowerUp::Speed));
}

#[test]
fn rolls_map_to_kinds() {
    assert_eq!(kind_from_roll(0), PowerUp::Speed);
    assert_eq!(kind_from_roll(1), PowerUp::Slow);
    assert_eq!(kind_from_roll(2), PowerUp::DoublePoints);
    assert_eq!(kind_from_roll(3), PowerUp::Invincible);
    assert_eq!(kind_from_roll(4), PowerUp::NoEffect);
}

#[test]
fn tick_interval_follows_speed() {
    let mut g = SnakeGame::new();
    assert_eq!(g.tick_interval_us(), 136363);
    g.speed_milli = 1500;
    assert_eq!(g.tick_interval_us(), 100000);
}

#[test]
fn eating_animation_runs_down() {
    let mut g = game_with(&[(10, 10), (9, 10), (8, 10)], Direction::Right, (3, 3));
    g.eating_animation = 1000;
    g.update(100);
    assert_eq!(g.eating_animation, 700);
    for _ in 0..4 {
        g.update(100);
    }
    assert_eq!(g.eating_animation, 0);
}

#[test]
fn steps_clamp_at_edges() {
    assert_eq!(cell(0, 0).step(Direction::Up), cell(0, 0));
    assert_eq!(cell(29, 29).step(Direction::Down), cell(29, 29));
    assert_eq!(cell(29, 4).step(Direction::Right), cell(29, 4));
    assert_eq!(cell(4, 4).step(Direction::Left), cell(3, 4));
    assert_eq!(Direction::Up.reverse(), Direction::Down);
}
