use snek::grid::{Direction, Position};
use snek::input::Key;
use snek::state::{Game, SnekHead};

fn at(x: i32, y: i32) -> Position {
    Position { x, y }
}

fn is_startup(g: &Game) -> bool {
    g.head.direction == Direction::Up
        && g.head.next_direction.is_none()
        && g.head_position == at(3, 3)
        && g.segments == vec![at(3, 2)]
        && g.food.is_empty()
        && g.last_tail_position.is_none()
        && g.growth_events == 0
        && !g.game_over_event
}

#[test]
fn new_game_is_startup() {
    let g = Game::new();
    assert_eq!(g.head.direction, Direction::Up);
    assert_eq!(g.head.next_direction, None);
    assert_eq!(g.head_position, at(3, 3));
    assert_eq!(g.segments, vec![at(3, 2)]);
    assert!(g.food.is_empty());
    assert_eq!(g.last_tail_position, None);
    assert_eq!(g.growth_events, 0);
    assert!(!g.game_over_event);
}

#[test]
fn spawn_initial_snake_replaces_snake_only() {
    let mut g = Game {
        head: SnekHead { direction: Direction::Left, next_direction: Some(Direction::Down) },
        head_position: at(7, 7),
        segments: vec![at(8, 7), at(9, 7)],
        food: vec![at(1, 1)],
        last_tail_position: Some(at(9, 8)),
        growth_events: 0,
        game_over_event: false,
    };
    g.spawn_initial_snake();
    assert_eq!(g.head.direction, Direction::Up);
    assert_eq!(g.head.next_direction, None);
    assert_eq!(g.head_position, at(3, 3));
    assert_eq!(g.segments, vec![at(3, 2)]);
    assert_eq!(g.food, vec![at(1, 1)]);
    assert_eq!(g.last_tail_position, Some(at(9, 8)));
}

#[test]
fn game_over_resets_to_startup() {
    let mut g = Game {
        head: SnekHead { direction: Direction::Left, next_direction: Some(Direction::Down) },
        head_position: at(-1, 7),
        segments: vec![at(0, 7), at(1, 7), at(2, 7)],
        food: vec![at(1, 1), at(4, 4)],
        last_tail_position: Some(at(3, 7)),
        growth_events: 2,
        game_over_event: true,
    };
    g.game_over();
    assert!(is_startup(&g));
}

#[test]
fn game_over_without_signal_changes_nothing() {
    let mut g = Game::new();
    g.spawn_food(at(4, 4));
    g.snek_movement(Some(Direction::Left), true);
    g.game_over();
    assert_eq!(g.head_position, at(2, 3));
    assert_eq!(g.head.direction, Direction::Left);
    assert_eq!(g.segments, vec![at(3, 3)]);
    assert_eq!(g.food, vec![at(4, 4)]);
    assert_eq!(g.last_tail_position, Some(at(3, 2)));
}

#[test]
fn eating_on_a_tick_grows_within_the_frame() {
    let mut g = Game::new();
    g.spawn_food(at(3, 4));
    g.spawn_food(at(6, 6));
    g.frame(None, false);
    assert_eq!(g.segments, vec![at(3, 2)]);
    assert_eq!(g.food.len(), 2);
    g.frame(None, true);
    assert_eq!(g.head_position, at(3, 4));
    assert_eq!(g.segments, vec![at(3, 3), at(3, 2)]);
    assert_eq!(g.food, vec![at(6, 6)]);
    assert_eq!(g.last_tail_position, Some(at(3, 2)));
    assert_eq!(g.growth_events, 0);
    g.frame(None, true);
    assert_eq!(g.head_position, at(3, 5));
    assert_eq!(g.segments, vec![at(3, 4), at(3, 3)]);
    assert_eq!(g.last_tail_position, Some(at(3, 2)));
}

#[test]
fn wall_crash_resets_within_the_frame() {
    let mut g = Game::new();
    g.spawn_food(at(8, 8));
    for y in 4..=9 {
        g.frame(None, true);
        assert_eq!(g.head_position, at(3, y));
        assert_eq!(g.segments, vec![at(3, y - 1)]);
    }
    g.frame(None, true);
    assert!(is_startup(&g));
}

#[test]
fn self_collision_resets_within_the_frame() {
    let mut g = Game::new();
    g.segments = vec![at(3, 2), at(2, 2), at(2, 3), at(2, 4)];
    g.spawn_food(at(8, 8));
    g.frame(Some(Direction::Left), true);
    assert!(is_startup(&g));
}

#[test]
fn frame_off_tick_only_buffers() {
    let mut g = Game::new();
    g.spawn_food(at(3, 3));
    g.frame(Some(Direction::Right), false);
    assert_eq!(g.head.next_direction, Some(Direction::Right));
    assert_eq!(g.head_position, at(3, 3));
    assert_eq!(g.segments, vec![at(3, 2)]);
    assert_eq!(g.food, vec![at(3, 3)]);
    assert_eq!(g.last_tail_position, None);
}

#[test]
fn frame_from_keys_takes_first_arrow() {
    let mut g = Game::new();
    g.frame_from_keys(&vec![Key::Other, Key::Right, Key::Left], true);
    assert_eq!(g.head.direction, Direction::Right);
    assert_eq!(g.head_position, at(4, 3));
    g.frame_from_keys(&vec![Key::Left], true);
    assert_eq!(g.head.direction, Direction::Right);
    assert_eq!(g.head_position, at(5, 3));
    g.frame_from_keys(&vec![], true);
    assert_eq!(g.head_position, at(6, 3));
    assert_eq!(g.segments, vec![at(5, 3)]);
}

#[test]
fn snake_and_food_stay_in_the_arena() {
    let mut g = Game::new();
    let turns = [Key::Up, Key::Right, Key::Right, Key::Down, Key::Left, Key::Other, Key::Up];
    let mut seed: u32 = 12345;
    for n in 0..5000 {
        seed = seed.wrapping_mul(1103515245).wrapping_add(12345);
        let key = turns[((seed >> 16) % 7) as usize];
        g.food_spawner(n % 4 == 0);
        g.frame_from_keys(&vec![key], n % 3 != 0);
        assert!(g.is_settled());
        assert!(!g.head_position.out_of_bounds());
        assert!(g.segments.iter().all(|p| !p.out_of_bounds()));
        assert!(g.food.iter().all(|p| !p.out_of_bounds()));
        assert!(!g.segments.is_empty());
    }
}

#[test]
fn is_settled_tells_pending_signals() {
    let mut g = Game::new();
    assert!(g.is_settled());
    g.growth_events = 1;
    assert!(!g.is_settled());
    g.growth_events = 0;
    g.game_over_event = true;
    assert!(!g.is_settled());
    g.game_over_event = false;
    g.head_position = at(10, 3);
    assert!(!g.is_settled());
}

#[test]
fn is_settled_wants_a_turn_in_the_buffer() {
    let mut g = Game::new();
    g.head.next_direction = Some(Direction::Left);
    assert!(g.is_settled());
    g.head.next_direction = Some(Direction::Down);
    assert!(!g.is_settled());
    g.head.next_direction = Some(Direction::Up);
    assert!(!g.is_settled());
}
