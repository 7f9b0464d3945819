//! One frame of the game: the steps in their order, and what holds from frame
//! to frame.

use vstd::prelude::*;
use crate::grid::Direction;
use crate::input::{pressed_direction, requested, Key};
use crate::food::eating_and_growth_stay_in_arena;
use crate::movement::tick_keeps_body_in_arena;
use crate::state::{copies, Game, GameModel};
use crate::timer::{FoodSpawnTimer, SnekMoveTimer};

verus! {

impl Game {
    /// True where a frame can be run: on a tick the head has room to step and
    /// the growth signals room to be counted; off the tick, pending growth has
    /// a vacated cell to grow on. A settled game is ready for every frame.
    pub open spec fn ready(&self, tick: bool) -> bool {
        &&& tick ==> self@.can_advance()
        &&& tick ==> self.growth_events + self.food.len() <= usize::MAX
        &&& !tick && self.growth_events > 0 ==> self.last_tail_position.is_some()
    }

    /// Runs the steps of one frame in their order: movement, eating, growth,
    /// reset. `dir` is the heading that the keys ask for, `tick` says whether
    /// the movement timer has run down in this frame. Growth sees the cell
    /// vacated by the same frame's movement, and the reset sees the crash
    /// raised by it.
    pub fn frame(&mut self, dir: Option<Direction>, tick: bool)
        requires
            old(self).ready(tick),
        ensures
            final(self)@ == old(self)@.frame(dir, tick),
            old(self)@.settled() ==> final(self)@.settled(),
            old(self)@.on_board() ==> final(self)@.on_board(),
    {
        proof {
            if self@.on_board() {
                frame_keeps_snake_on_board(self@, dir, tick);
            }
        }
        self.snek_movement(dir, tick);
        self.snek_eating(tick);
        self.snek_growth();
        self.game_over();
    }

    /// One frame, from the keys that are held down. With several arrows held
    /// the first in `keys` counts.
    pub fn frame_from_keys(&mut self, keys: &Vec<Key>, tick: bool)
        requires
            old(self).ready(tick),
        ensures
            final(self)@ == old(self)@.frame(requested(keys@), tick),
            old(self)@.settled() ==> final(self)@.settled(),
            old(self)@.on_board() ==> final(self)@.on_board(),
    {
        let dir = pressed_direction(keys);
        self.frame(dir, tick);
    }

    /// One frame by the clock: `delta_us` microseconds pass on the movement
    /// timer, and the frame is a tick exactly where that carries the timer to
    /// its period.
    pub fn update(&mut self, timer: &mut SnekMoveTimer, keys: &Vec<Key>, delta_us: u64)
        requires
            old(timer).0.wf(),
            old(self)@.settled(),
        ensures
            final(timer).0 == old(timer).0.spec_tick(delta_us),
            final(timer).0.wf(),
            final(self)@ == old(self)@.frame(requested(keys@), final(timer).0.finished),
            final(self)@.settled(),
            old(self)@.on_board() ==> final(self)@.on_board(),
    {
        timer.0.tick(delta_us);
        self.frame_from_keys(keys, timer.0.finished);
    }

    /// The food step by the clock: `delta_us` microseconds pass on the food
    /// timer. Where that carries the timer to its period, exactly one item is
    /// spawned, on a cell of the arena, also where two or more periods have run
    /// down at once; otherwise none is.
    pub fn spawn_food_on_time(&mut self, timer: &mut FoodSpawnTimer, delta_us: u64)
        requires
            old(timer).0.wf(),
        ensures
            final(timer).0 == old(timer).0.spec_tick(delta_us),
            final(timer).0.wf(),
            !final(timer).0.finished ==> final(self)@ == old(self)@,
            final(timer).0.finished ==> final(self)@.food.last().in_arena(),
            final(timer).0.finished ==> final(self)@ == old(self)@.with_food(final(self)@.food.last()),
            final(self)@.settled() == old(self)@.settled(),
            old(self)@.on_board() ==> final(self)@.on_board(),
    {
        timer.0.tick(delta_us);
        self.food_spawner(timer.0.finished);
    }
}

/// A frame keeps a settled game settled: the head is in the arena again, and
/// no signal is left pending.
pub proof fn frame_keeps_settled(game: GameModel, dir: Option<Direction>, tick: bool)
    requires
        game.settled(),
    ensures
        game.frame(dir, tick).settled(),
{
}

/// A frame keeps a game on the board: afterwards the head, every segment and
/// every food item lie in the arena again.
pub proof fn frame_keeps_snake_on_board(game: GameModel, dir: Option<Direction>, tick: bool)
    requires
        game.on_board(),
    ensures
        game.frame(dir, tick).on_board(),
{
    if tick {
        let moved = game.buffer(dir).advance();
        if !moved.game_over_event {
            tick_keeps_body_in_arena(game.buffer(dir));
            eating_and_growth_stay_in_arena(moved);
        }
    } else {
        frame_off_tick_only_buffers(game, dir);
    }
}

/// A settled snake never turns round: whatever the keys ask for, the heading
/// after the next tick is not the opposite of the heading before it.
pub proof fn settled_snake_never_reverses(game: GameModel, dir: Option<Direction>)
    requires
        game.settled(),
    ensures
        game.movement(dir, true).direction != game.direction.spec_opposite(),
        !game.buffer(dir).crashes() ==> game.frame(dir, true).direction
            != game.direction.spec_opposite(),
{
}

/// The game after a reset is the game at startup, whatever it was before: one
/// segment, the head above it, heading up, nothing buffered, no food.
pub proof fn reset_restores_startup(game: GameModel)
    requires
        game.game_over_event,
    ensures
        game.settle() == GameModel::initial(),
        game.settle().segments.len() == 1,
        game.settle().food.len() == 0,
{
}

/// A frame whose tick crashes ends in the game at startup.
pub proof fn crash_resets_within_the_frame(game: GameModel, dir: Option<Direction>)
    requires
        game.can_advance(),
        game.buffer(dir).crashes(),
    ensures
        game.frame(dir, true) == GameModel::initial(),
{
}

/// A tick that brings the head onto exactly one food item, without a crash,
/// ends the frame with exactly one more segment: the body as the tick shifted
/// it, and at its tail end the cell that this tick vacated. A frame off the
/// tick leaves the body as it was.
pub proof fn food_grows_snake_within_the_tick(game: GameModel, dir: Option<Direction>)
    requires
        game.settled(),
        !game.buffer(dir).crashes(),
        game.movement(dir, true).food.len() - game.movement(dir, true).uneaten().len() == 1,
    ensures
        game.frame(dir, true).segments == game.movement(dir, true).segments.push(
            game.buffer(dir).vacated(),
        ),
        game.frame(dir, true).segments.len() == game.segments.len() + 1,
        game.frame(dir, true).last_tail_position == Some(game.buffer(dir).vacated()),
        game.frame(dir, true).food == game.movement(dir, true).uneaten(),
        game.frame(dir, false).segments == game.segments,
{
    let moved = game.movement(dir, true);
    let tail = game.buffer(dir).vacated();
    assert(moved.segments + copies(1, tail) =~= moved.segments.push(tail));
    frame_off_tick_only_buffers(game, dir);
}

/// A frame off the tick changes nothing but the buffer.
pub proof fn frame_off_tick_only_buffers(game: GameModel, dir: Option<Direction>)
    requires
        game.settled(),
    ensures
        game.frame(dir, false) == game.buffer(dir),
{
    match game.last_tail_position {
        Some(tail) => {
            assert(game.segments + copies(0, tail) =~= game.segments);
        },
        None => {},
    }
}

} // verus!
