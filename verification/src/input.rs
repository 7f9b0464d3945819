//! From pressed keys to a requested heading.

use vstd::prelude::*;
use crate::grid::Direction;

verus! {

/// A key as the game sees it: one of the four arrows, or anything else.
#[derive(Clone, Copy, Debug, PartialEq, Eq, Structural)]
pub enum Key {
    Left,
    Right,
    Up,
    Down,
    Other,
}

impl Key {
    /// The heading an arrow key asks for; `None` for every other key.
    pub open spec fn spec_direction(self) -> Option<Direction> {
        match self {
            Key::Left => Some(Direction::Left),
            Key::Right => Some(Direction::Right),
            Key::Up => Some(Direction::Up),
            Key::Down => Some(Direction::Down),
            Key::Other => None,
        }
    }

    /// Executable form of [`Key::spec_direction`].
    pub fn direction(self) -> (r: Option<Direction>)
        ensures
            r == self.spec_direction(),
    {
        match self {
            Key::Left => Some(Direction::Left),
            Key::Right => Some(Direction::Right),
            Key::Up => Some(Direction::Up),
            Key::Down => Some(Direction::Down),
            Key::Other => None,
        }
    }
}

/// The heading asked for by the first arrow key in `keys`, if there is one.
/// With several arrows held, the order of `keys` decides.
pub open spec fn requested(keys: Seq<Key>) -> Option<Direction>
    decreases keys.len(),
{
    if keys.len() == 0 {
        None
    } else if keys[0].spec_direction().is_some() {
        keys[0].spec_direction()
    } else {
        requested(keys.drop_first())
    }
}

/// `requested` said by position: the answer is the heading of the arrow at
/// index `i` exactly when no key before `i` is an arrow.
pub proof fn requested_is_first_arrow(keys: Seq<Key>, i: int)
    requires
        0 <= i < keys.len(),
        keys[i].spec_direction().is_some(),
        forall|j: int| 0 <= j < i ==> keys[j].spec_direction().is_none(),
    ensures
        requested(keys) == keys[i].spec_direction(),
    decreases i,
{
    if i > 0 {
        let rest = keys.drop_first();
        assert forall|j: int| 0 <= j < i - 1 implies rest[j].spec_direction().is_none() by {
            assert(rest[j] == keys[j + 1]);
        }
        assert(rest[i - 1] == keys[i]);
        requested_is_first_arrow(rest, i - 1);
    }
}

/// Without an arrow among the keys nothing is requested.
pub proof fn requested_none_without_arrow(keys: Seq<Key>)
    requires
        forall|j: int| 0 <= j < keys.len() ==> keys[j].spec_direction().is_none(),
    ensures
        requested(keys).is_none(),
    decreases keys.len(),
{
    if keys.len() > 0 {
        let rest = keys.drop_first();
        assert forall|j: int| 0 <= j < rest.len() implies rest[j].spec_direction().is_none() by {
            assert(rest[j] == keys[j + 1]);
        }
        requested_none_without_arrow(rest);
    }
}

/// Picks the requested heading out of the keys that are held down.
pub fn pressed_direction(keys: &Vec<Key>) -> (r: Option<Direction>)
    ensures
        r == requested(keys@),
{
    let mut i: usize = 0;
    while i < keys.len()
        invariant
            i <= keys.len(),
            forall|j: int| 0 <= j < i ==> keys@[j].spec_direction().is_none(),
        decreases keys.len() - i,
    {
        let d = keys[i].direction();
        if d.is_some() {
            proof {
                requested_is_first_arrow(keys@, i as int);
            }
            return d;
        }
        i += 1;
    }
    proof {
        requested_none_without_arrow(keys@);
    }
    None
}

} // verus!
