use snake_core::Direction;
use snake_core::GameStatus;
use snake_core::World;

/// A world whose initial reward cell is not `avoid`, so that the scripted
/// moves of a scenario cannot stumble into growth. Reward placement is
/// random, so construction is retried; the bound keeps a broken generator
/// from hanging the test.
fn world_with_reward_away_from(grid_size: usize, snake_idx: usize, avoid: usize) -> World {
    for _ in 0..10_000 {
        let w = World::new(grid_size, snake_idx);
        if w.reward_cell() != avoid {
            return w;
        }
    }
    panic!("reward placement kept returning the same cell");
}

/// A world whose initial reward cell is exactly `wanted`, for growth
/// scenarios.
fn world_with_reward_at(grid_size: usize, snake_idx: usize, wanted: usize) -> World {
    for _ in 0..1_000_000 {
        let w = World::new(grid_size, snake_idx);
        if w.reward_cell() == wanted {
            return w;
        }
    }
    panic!("reward placement never returned the wanted cell");
}

#[test]
fn width_and_height_equal_size() {
    for size in [2, 3, 4, 8, 13] {
        let w = World::new(size, 2);
        assert_eq!(w.width(), size);
        assert_eq!(w.height(), size);
    }
}

#[test]
fn small_sizes_are_clamped_to_two() {
    let w = World::new(0, 2);
    assert_eq!(w.width(), 2);
    assert_eq!(w.height(), 2);
    let w = World::new(1, 3);
    assert_eq!(w.width(), 2);
}

#[test]
fn initial_spawn_layout() {
    let w = World::new(8, 27);
    assert_eq!(w.snake_cells(), vec![27, 26, 25]);
    assert_eq!(w.snake_head_idx(), 27);
    assert_eq!(w.game_status(), None);
}

#[test]
fn initial_reward_is_on_grid_and_off_body() {
    for _ in 0..50 {
        let w = World::new(8, 27);
        let r = w.reward_cell();
        assert!(r < 64);
        assert!(!w.snake_cells().contains(&r));
    }
}

#[test]
fn start_game_sets_running() {
    let mut w = World::new(8, 27);
    assert_eq!(w.game_status(), None);
    w.start_game();
    assert_eq!(w.game_status(), Some(GameStatus::Running));
    w.start_game();
    assert_eq!(w.game_status(), Some(GameStatus::Running));
}

#[test]
fn step_before_start_is_noop() {
    let mut w = World::new(8, 27);
    let cells = w.snake_cells();
    let reward = w.reward_cell();
    w.step();
    assert_eq!(w.snake_cells(), cells);
    assert_eq!(w.reward_cell(), reward);
    assert_eq!(w.game_status(), None);
}

#[test]
fn step_moves_down_by_default() {
    let mut w = world_with_reward_away_from(8, 27, 35);
    w.start_game();
    w.step();
    assert_eq!(w.snake_head_idx(), 35);
    assert_eq!(w.snake_cells(), vec![35, 27, 26]);
}

#[test]
fn head_wraps_right_at_end_of_row() {
    let mut w = World::new(4, 3);
    w.start_game();
    w.set_snake_direction(Direction::Right);
    w.step();
    assert_eq!(w.snake_head_idx(), 0);
}

#[test]
fn head_wraps_up_at_top_row() {
    let mut w = World::new(4, 3);
    w.start_game();
    w.set_snake_direction(Direction::Right);
    w.step();
    assert_eq!(w.snake_head_idx(), 0);
    w.set_snake_direction(Direction::Up);
    w.step();
    assert_eq!(w.snake_head_idx(), 12);
}

#[test]
fn reversal_into_neck_is_rejected() {
    // Head 27, neck 26: moving Left would enter the neck.
    let mut w = world_with_reward_away_from(8, 27, 35);
    w.start_game();
    w.set_snake_direction(Direction::Left);
    w.step();
    // The heading stayed Down, so the head moved one row down.
    assert_eq!(w.snake_head_idx(), 35);
    assert_eq!(w.snake_cells(), vec![35, 27, 26]);
}

#[test]
fn accepted_direction_change_applies_on_next_step() {
    let mut w = world_with_reward_away_from(8, 27, 28);
    w.start_game();
    w.set_snake_direction(Direction::Right);
    w.step();
    assert_eq!(w.snake_head_idx(), 28);
    assert_eq!(w.snake_cells(), vec![28, 27, 26]);
}

#[test]
fn landing_on_reward_grows_by_one() {
    let mut w = world_with_reward_at(4, 3, 0);
    w.start_game();
    w.set_snake_direction(Direction::Right);
    w.step();
    // Head wrapped to the reward at 0; the new tail duplicates the second
    // segment, which is the old head.
    assert_eq!(w.snake_cells(), vec![0, 3, 2, 3]);
    let r = w.reward_cell();
    assert!(r < 16);
    assert!(!w.snake_cells().contains(&r));
}

#[test]
fn growth_keeps_reward_off_body_over_many_steps() {
    let mut w = World::new(8, 27);
    w.start_game();
    let directions = [
        Direction::Right,
        Direction::Down,
        Direction::Left,
        Direction::Down,
    ];
    let mut len = w.snake_cells().len();
    for i in 0..200 {
        w.set_snake_direction(directions[i % directions.len()]);
        let reward_before = w.reward_cell();
        let head_before = w.snake_head_idx();
        w.step();
        let cells = w.snake_cells();
        // The body never shrinks, stays on the grid, and grows by exactly
        // one when the head lands on the reward.
        if cells[0] == reward_before {
            assert_eq!(cells.len(), len + 1);
        } else {
            assert_eq!(cells.len(), len);
        }
        len = cells.len();
        assert!(cells.iter().all(|&c| c < 64));
        assert_eq!(cells[1], head_before);
        let r = w.reward_cell();
        if r != usize::MAX {
            assert!(!cells.contains(&r));
        }
        assert_eq!(w.game_status(), Some(GameStatus::Running));
    }
}
