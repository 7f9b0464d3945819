use snek::grid::Direction;
use snek::input::{pressed_direction, Key};

#[test]
fn arrows_map_to_headings() {
    assert_eq!(Key::Left.direction(), Some(Direction::Left));
    assert_eq!(Key::Right.direction(), Some(Direction::Right));
    assert_eq!(Key::Up.direction(), Some(Direction::Up));
    assert_eq!(Key::Down.direction(), Some(Direction::Down));
    assert_eq!(Key::Other.direction(), None);
}

#[test]
fn no_keys_request_nothing() {
    assert_eq!(pressed_direction(&vec![]), None);
}

#[test]
fn other_keys_are_ignored() {
    assert_eq!(pressed_direction(&vec![Key::Other, Key::Other]), None);
    assert_eq!(pressed_direction(&vec![Key::Other, Key::Down, Key::Other]), Some(Direction::Down));
}

#[test]
fn first_arrow_wins() {
    assert_eq!(pressed_direction(&vec![Key::Left, Key::Up]), Some(Direction::Left));
    assert_eq!(pressed_direction(&vec![Key::Up, Key::Left]), Some(Direction::Up));
    assert_eq!(pressed_direction(&vec![Key::Other, Key::Right, Key::Down]), Some(Direction::Right));
}
