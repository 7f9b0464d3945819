//! The movement step: buffering a requested heading, and the tick that moves
//! the head, lets the body follow and detects a crash.

use vstd::prelude::*;
use crate::grid::{Direction, Position};
use crate::state::{all_in_arena, carried, shifted, Game, GameModel};

verus! {

impl Game {
    /// Takes note of a requested heading. A turn is buffered for the next tick.
    /// A request for the current heading or for its opposite empties the
    /// buffer, so the snake never reverses onto itself. `None` changes nothing.
    pub fn buffer_direction(&mut self, dir: Option<Direction>)
        ensures
            final(self)@ == old(self)@.buffer(dir),
    {
        if let Some(d) = dir {
            let current = self.head.direction;
            if d != current && d != current.opposite() {
                self.head.next_direction = Some(d);
            } else {
                self.head.next_direction = None;
            }
        }
    }

    /// One tick. The buffered heading, if there is one, becomes the current
    /// heading and the buffer is emptied; the head moves one cell along it.
    /// Each segment takes the cell of the one before it, the first that of the
    /// head, and the cell that falls free is recorded as the last tail
    /// position. A head outside the arena, or on a cell that a segment held
    /// before the shift, raises the game-over signal; a segment that the head
    /// has run into keeps its cell.
    pub fn advance(&mut self)
        requires
            old(self)@.can_advance(),
        ensures
            final(self)@ == old(self)@.advance(),
    {
        let ghost before = self@;
        let dir = match self.head.next_direction {
            Some(d) => d,
            None => self.head.direction,
        };
        self.head.next_direction = None;
        self.head.direction = dir;
        let start = self.head_position;
        let dest = start.step(dir);
        self.head_position = dest;
        let mut crashed = dest.out_of_bounds();
        let mut last_pos = start;
        let mut i: usize = 0;
        while i < self.segments.len()
            invariant
                i <= before.segments.len(),
                self.segments@.len() == before.segments.len(),
                forall|j: int| 0 <= j < i ==> self.segments@[j] == shifted(before.segments, start, dest)[j],
                forall|j: int| i <= j < before.segments.len() ==> self.segments@[j] == before.segments[j],
                last_pos == carried(before.segments, start, dest, i as int),
                crashed == (dest.spec_out_of_bounds() || exists|j: int|
                    0 <= j < i && before.segments[j] == dest),
                self.head.direction == dir,
                self.head.next_direction.is_none(),
                self.head_position == dest,
                self.food@ == before.food,
                self.growth_events == before.growth_events,
                self.game_over_event == before.game_over_event,
            decreases before.segments.len() - i,
        {
            let segment_pos = self.segments[i];
            if segment_pos == dest {
                crashed = true;
            } else {
                self.segments.set(i, last_pos);
                last_pos = segment_pos;
            }
            i += 1;
        }
        self.last_tail_position = Some(last_pos);
        if crashed {
            self.game_over_event = true;
        }
        proof {
            assert(before.destination() == dest);
            assert(before.heading() == dir);
            assert(self@.segments =~= shifted(before.segments, start, dest));
            assert(crashed == before.crashes());
        }
    }

    /// The movement step of one frame: the request is buffered in every frame,
    /// and the snake advances only where the movement timer has run down in
    /// this frame (`tick`).
    pub fn snek_movement(&mut self, dir: Option<Direction>, tick: bool)
        requires
            tick ==> old(self)@.can_advance(),
        ensures
            final(self)@ == old(self)@.movement(dir, tick),
    {
        self.buffer_direction(dir);
        if tick {
            self.advance();
        }
    }
}

/// A request for the opposite of the current heading is never buffered: the
/// buffer is empty afterwards, whatever it held. The same holds of a request
/// for the current heading itself.
pub proof fn reversal_is_not_buffered(game: GameModel, d: Direction)
    requires
        d == game.direction.spec_opposite() || d == game.direction,
    ensures
        game.buffer(Some(d)).next_direction.is_none(),
        game.buffer(Some(d)).heading() == game.direction,
{
}

/// After any request the buffer never holds the opposite of the current
/// heading, provided it did not before; so the tick that follows never turns
/// the snake round.
pub proof fn buffer_never_holds_reversal(game: GameModel, dir: Option<Direction>)
    requires
        game.next_direction != Some(game.direction.spec_opposite()),
    ensures
        game.buffer(dir).next_direction != Some(game.direction.spec_opposite()),
        game.buffer(dir).heading() != game.direction.spec_opposite(),
        game.movement(dir, true).direction != game.direction.spec_opposite(),
        game.movement(dir, true).next_direction.is_none(),
{
}

/// Where the head runs into no segment, the hand-down is the plain shift: the
/// cell carried to index `i` is the head's old cell for the first segment and
/// the cell of segment `i - 1` for every other.
pub proof fn carried_without_collision(segments: Seq<Position>, start: Position, dest: Position, i: int)
    requires
        0 <= i <= segments.len(),
        !segments.contains(dest),
    ensures
        carried(segments, start, dest, i) == if i == 0 {
            start
        } else {
            segments[i - 1]
        },
{
    if i > 0 {
        assert(segments.contains(segments[i - 1]));
    }
}

/// What is handed down the body never leaves the arena: it is the head's old
/// cell or the old cell of a segment.
pub proof fn carried_stays_in_arena(segments: Seq<Position>, start: Position, dest: Position, i: int)
    requires
        0 <= i <= segments.len(),
        all_in_arena(segments),
        start.in_arena(),
    ensures
        carried(segments, start, dest, i).in_arena(),
    decreases i,
{
    if i > 0 {
        carried_stays_in_arena(segments, start, dest, i - 1);
    }
}

/// A tick keeps the body in the arena, and vacates a cell of the arena.
pub proof fn tick_keeps_body_in_arena(game: GameModel)
    requires
        game.head_position.in_arena(),
        all_in_arena(game.segments),
    ensures
        all_in_arena(game.advance().segments),
        game.vacated().in_arena(),
{
    let dest = game.destination();
    assert forall|i: int| 0 <= i < game.segments.len() implies (#[trigger] game.advance().segments[i]).in_arena() by {
        carried_stays_in_arena(game.segments, game.head_position, dest, i);
    }
    carried_stays_in_arena(game.segments, game.head_position, dest, game.segments.len() as int);
}

/// One tick with nothing buffered, onto a cell that no segment holds: the head
/// moves by exactly one cell along the heading it had, the heading stays, the
/// first segment takes the head's old cell, every other segment the cell of
/// the one before it, and the cell of the last segment (the head's, for a
/// snake without body) is recorded as vacated. The game-over signal is raised
/// only where the head has left the arena.
pub proof fn tick_moves_head_and_shifts_body(game: GameModel)
    requires
        game.can_advance(),
        game.next_direction.is_none(),
        !game.segments.contains(game.destination()),
    ensures
        game.advance().direction == game.direction,
        game.advance().next_direction.is_none(),
        game.advance().head_position.x == game.head_position.x + game.direction.dx(),
        game.advance().head_position.y == game.head_position.y + game.direction.dy(),
        game.advance().segments.len() == game.segments.len(),
        forall|i: int|
            0 <= i < game.segments.len() ==> #[trigger] game.advance().segments[i] == if i == 0 {
                game.head_position
            } else {
                game.segments[i - 1]
            },
        game.advance().last_tail_position == Some(
            if game.segments.len() == 0 {
                game.head_position
            } else {
                game.segments.last()
            },
        ),
        game.advance().game_over_event == (game.game_over_event
            || game.advance().head_position.spec_out_of_bounds()),
        game.advance().food == game.food,
        game.advance().growth_events == game.growth_events,
{
    let dest = game.destination();
    assert forall|i: int| 0 <= i < game.segments.len() implies #[trigger] game.advance().segments[i]
        == if i == 0 {
        game.head_position
    } else {
        game.segments[i - 1]
    } by {
        assert(game.segments.contains(game.segments[i]));
        carried_without_collision(game.segments, game.head_position, dest, i);
    }
    carried_without_collision(game.segments, game.head_position, dest, game.segments.len() as int);
}

/// A step changes exactly one coordinate, by exactly one.
pub proof fn step_is_one_cell(p: Position, d: Direction)
    requires
        p.can_step(d),
    ensures
        p.spec_step(d).x == p.x + d.dx(),
        p.spec_step(d).y == p.y + d.dy(),
        (d.dx() == 0) != (d.dy() == 0),
        -1 <= d.dx() <= 1,
        -1 <= d.dy() <= 1,
{
}

/// A tick that takes the head out of the arena raises the game-over signal,
/// and so does one that takes it onto a cell that a segment holds before the
/// shift. The signal is a flag: a tick raises it once or not at all, and a
/// tick without a crash leaves it as it was.
pub proof fn crash_raises_game_over(game: GameModel)
    requires
        game.can_advance(),
    ensures
        game.destination().spec_out_of_bounds() ==> game.advance().game_over_event,
        game.segments.contains(game.destination()) ==> game.advance().game_over_event,
        !game.crashes() ==> game.advance().game_over_event == game.game_over_event,
        game.advance().head_position.spec_out_of_bounds() ==> game.advance().game_over_event,
{
}

/// Off the tick nothing moves: only the buffer can change.
pub proof fn no_movement_off_tick(game: GameModel, dir: Option<Direction>)
    ensures
        game.movement(dir, false).head_position == game.head_position,
        game.movement(dir, false).segments == game.segments,
        game.movement(dir, false).direction == game.direction,
        game.movement(dir, false).last_tail_position == game.last_tail_position,
        game.movement(dir, false).game_over_event == game.game_over_event,
        game.movement(dir, false).food == game.food,
        game.movement(dir, false).growth_events == game.growth_events,
{
}

} // verus!
