use snek::food::random_cell;
use snek::grid::{Direction, Position};
use snek::state::{Game, SnekHead};

fn at(x: i32, y: i32) -> Position {
    Position { x, y }
}

fn snake(head: Position, segments: Vec<Position>, food: Vec<Position>) -> Game {
    Game {
        head: SnekHead { direction: Direction::Up, next_direction: None },
        head_position: head,
        segments,
        food,
        last_tail_position: None,
        growth_events: 0,
        game_over_event: false,
    }
}

#[test]
fn spawn_food_appends() {
    let mut g = Game::new();
    g.spawn_food(at(3, 3));
    g.spawn_food(at(3, 3));
    g.spawn_food(at(7, 1));
    assert_eq!(g.food, vec![at(3, 3), at(3, 3), at(7, 1)]);
}

#[test]
fn spawner_adds_one_item_when_timer_finished() {
    let mut g = Game::new();
    for n in 1..=50 {
        g.food_spawner(true);
        assert_eq!(g.food.len(), n);
        assert!(!g.food[n - 1].out_of_bounds());
    }
    assert_eq!(g.segments, vec![at(3, 2)]);
    assert_eq!(g.head_position, at(3, 3));
}

#[test]
fn spawner_adds_nothing_otherwise() {
    let mut g = Game::new();
    g.food_spawner(false);
    assert!(g.food.is_empty());
    g.spawn_food(at(1, 1));
    g.food_spawner(false);
    assert_eq!(g.food, vec![at(1, 1)]);
}

#[test]
fn random_cells_lie_in_arena_and_vary() {
    let first = random_cell();
    let mut differs = false;
    let mut high_x = false;
    let mut high_y = false;
    for _ in 0..2000 {
        let p = random_cell();
        assert!(0 <= p.x && p.x < 10);
        assert!(0 <= p.y && p.y < 10);
        differs = differs || p != first;
        high_x = high_x || p.x > 0;
        high_y = high_y || p.y > 0;
    }
    assert!(differs);
    assert!(high_x);
    assert!(high_y);
}

#[test]
fn head_eats_what_lies_under_it() {
    let mut g = snake(at(3, 4), vec![at(3, 3)], vec![at(3, 4), at(5, 5)]);
    g.snek_eating(true);
    assert_eq!(g.food, vec![at(5, 5)]);
    assert_eq!(g.growth_events, 1);
    assert_eq!(g.segments, vec![at(3, 3)]);
}

#[test]
fn every_item_under_head_is_eaten() {
    let mut g = snake(at(3, 4), vec![], vec![at(3, 4), at(5, 5), at(3, 4), at(1, 1)]);
    g.eat();
    assert_eq!(g.food, vec![at(5, 5), at(1, 1)]);
    assert_eq!(g.growth_events, 2);
}

#[test]
fn nothing_is_eaten_elsewhere() {
    let mut g = snake(at(3, 4), vec![], vec![at(4, 3), at(3, 5)]);
    g.snek_eating(true);
    assert_eq!(g.food, vec![at(4, 3), at(3, 5)]);
    assert_eq!(g.growth_events, 0);
}

#[test]
fn nothing_is_eaten_off_tick() {
    let mut g = snake(at(3, 4), vec![], vec![at(3, 4)]);
    g.snek_eating(false);
    assert_eq!(g.food, vec![at(3, 4)]);
    assert_eq!(g.growth_events, 0);
}

#[test]
fn growth_appends_segment_at_last_tail() {
    let mut g = snake(at(3, 4), vec![at(3, 3)], vec![]);
    g.last_tail_position = Some(at(3, 2));
    g.growth_events = 1;
    g.snek_growth();
    assert_eq!(g.segments, vec![at(3, 3), at(3, 2)]);
    assert_eq!(g.growth_events, 0);
    assert_eq!(g.last_tail_position, Some(at(3, 2)));
}

#[test]
fn each_signal_gives_one_segment() {
    let mut g = snake(at(3, 4), vec![at(3, 3)], vec![]);
    g.last_tail_position = Some(at(3, 2));
    g.growth_events = 3;
    g.snek_growth();
    assert_eq!(g.segments, vec![at(3, 3), at(3, 2), at(3, 2), at(3, 2)]);
    assert_eq!(g.growth_events, 0);
}

#[test]
fn no_signal_no_growth() {
    let mut g = snake(at(3, 4), vec![at(3, 3)], vec![]);
    g.last_tail_position = Some(at(3, 2));
    g.snek_growth();
    assert_eq!(g.segments, vec![at(3, 3)]);
    let mut h = snake(at(3, 4), vec![at(3, 3)], vec![]);
    h.snek_growth();
    assert_eq!(h.segments, vec![at(3, 3)]);
}

#[test]
fn spawn_segment_appends_at_tail_end() {
    let mut g = Game::new();
    g.spawn_segment(at(3, 1));
    assert_eq!(g.segments, vec![at(3, 2), at(3, 1)]);
}
