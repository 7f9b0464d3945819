//! Food: where it appears, how the head eats it, and how the body grows for
//! it.

use vstd::prelude::*;
use crate::grid::{Position, ARENA_HEIGHT, ARENA_WIDTH};
use crate::state::{all_in_arena, copies, not_at, Game, GameModel};

verus! {

/// Calls `rand::Rng::gen_range` on `rand::thread_rng()`. Not proved, but taken
/// from that crate: the call panics unless `low < high`, and returns a value
/// that is at least `low` and below `high`. Which value is left to chance, so
/// nothing more is claimed, and two calls may differ.
#[verifier::external_body]
fn random_in_range(low: i32, high: i32) -> (r: i32)
    requires
        low < high,
    ensures
        low <= r < high,
{
    rand::Rng::gen_range(&mut rand::thread_rng(), low, high)
}

/// Draws a cell of the arena, each coordinate on its own.
pub fn random_cell() -> (p: Position)
    ensures
        p.in_arena(),
        !p.spec_out_of_bounds(),
{
    let x = random_in_range(0, ARENA_WIDTH as i32);
    let y = random_in_range(0, ARENA_HEIGHT as i32);
    Position { x, y }
}

impl Game {
    /// Puts one food item on `position`, whatever lies there already.
    pub fn spawn_food(&mut self, position: Position)
        ensures
            final(self)@ == old(self)@.with_food(position),
    {
        self.food.push(position);
    }

    /// The food step of one frame. Where the food timer has run down in this
    /// frame (`finished`), exactly one item is spawned, on a cell of the arena
    /// drawn at random; snake and older food are not looked at. Otherwise
    /// nothing changes. A timer that ran down more than once within the frame
    /// still gives one item: the step is taken once per frame.
    pub fn food_spawner(&mut self, finished: bool)
        ensures
            !finished ==> final(self)@ == old(self)@,
            finished ==> final(self)@.food.len() == old(self)@.food.len() + 1,
            finished ==> final(self)@.food.last().in_arena(),
            finished ==> final(self)@ == old(self)@.with_food(final(self)@.food.last()),
            old(self)@.on_board() ==> final(self)@.on_board(),
    {
        if finished {
            let cell = random_cell();
            self.spawn_food(cell);
        }
    }

    /// The head eats every food item on its cell. Each item eaten is removed
    /// and raises one growth signal; the other items stay, in their order.
    pub fn eat(&mut self)
        requires
            old(self).growth_events + old(self).food.len() <= usize::MAX,
        ensures
            final(self)@ == old(self)@.eat(),
    {
        let ghost before = self@;
        let ghost keep = not_at(before.head_position);
        let head = self.head_position;
        let mut kept: Vec<Position> = Vec::new();
        let mut eaten: usize = 0;
        let mut i: usize = 0;
        assert(before.food.take(0) =~= Seq::<Position>::empty());
        while i < self.food.len()
            invariant
                self@ == before,
                head == before.head_position,
                keep == not_at(before.head_position),
                i <= before.food.len(),
                kept@ == before.food.take(i as int).filter(keep),
                eaten + kept@.len() == i,
            decreases before.food.len() - i,
        {
            let item = self.food[i];
            proof {
                assert(before.food.take(i + 1) =~= before.food.take(i as int).push(item));
                before.food.take(i as int).lemma_filter_push(item, keep);
            }
            if item == head {
                eaten += 1;
            } else {
                kept.push(item);
            }
            i += 1;
        }
        assert(before.food.take(i as int) =~= before.food);
        self.food = kept;
        self.growth_events = self.growth_events + eaten;
    }

    /// The eating step of one frame: the head eats only on a tick.
    pub fn snek_eating(&mut self, tick: bool)
        requires
            tick ==> old(self).growth_events + old(self).food.len() <= usize::MAX,
        ensures
            final(self)@ == old(self)@.eating(tick),
    {
        if tick {
            self.eat();
        }
    }

    /// The growth step of one frame. Each pending growth signal is consumed
    /// and gives one new segment at the tail end, on the cell recorded as the
    /// last tail position. Pending signals need such a record.
    pub fn snek_growth(&mut self)
        requires
            old(self).growth_events > 0 ==> old(self).last_tail_position.is_some(),
        ensures
            final(self)@ == old(self)@.grow(),
            final(self)@.growth_events == 0,
    {
        let ghost before = self@;
        if let Some(tail) = self.last_tail_position {
            while self.growth_events > 0
                invariant
                    self.growth_events <= before.growth_events,
                    self@.segments == before.segments + copies(
                        (before.growth_events - self.growth_events) as nat,
                        tail,
                    ),
                    self@ == (GameModel {
                        segments: self@.segments,
                        growth_events: self@.growth_events,
                        ..before
                    }),
                decreases self.growth_events,
            {
                let ghost done = (before.growth_events - self.growth_events) as nat;
                self.spawn_segment(tail);
                self.growth_events = self.growth_events - 1;
                assert(self@.segments =~= before.segments + copies(done + 1, tail));
            }
        }
    }
}

/// One food item under the head after a tick gives exactly one more segment,
/// at the tail end, on the cell which that tick vacated; the item is gone and
/// no growth signal stays pending. Before the growth step the body is as the
/// tick left it.
pub proof fn eating_one_item_grows_one_segment(game: GameModel)
    requires
        game.growth_events == 0,
        game.last_tail_position.is_some(),
        game.food.len() - game.uneaten().len() == 1,
    ensures
        game.eat().segments == game.segments,
        game.eat().growth_events == 1,
        game.eat().grow().segments == game.segments.push(game.last_tail_position.unwrap()),
        game.eat().grow().growth_events == 0,
        game.eat().grow().food == game.uneaten(),
        !game.eat().grow().food.contains(game.head_position),
{
    let tail = game.last_tail_position.unwrap();
    assert(game.segments + copies(1, tail) =~= game.segments.push(tail));
    uneaten_is_off_head(game);
}

/// After eating, no food lies under the head, and no food that lay elsewhere
/// is lost.
pub proof fn uneaten_is_off_head(game: GameModel)
    ensures
        !game.uneaten().contains(game.head_position),
        forall|p: Position|
            p != game.head_position && game.food.contains(p) ==> #[trigger] game.uneaten().contains(p),
        game.uneaten().len() <= game.food.len(),
{
    let keep = not_at(game.head_position);
    game.food.lemma_filter_len(keep);
    if game.uneaten().contains(game.head_position) {
        let i = choose|i: int| 0 <= i < game.uneaten().len() && game.uneaten()[i] == game.head_position;
        game.food.lemma_filter_pred(keep, i);
    }
    assert forall|p: Position| p != game.head_position && game.food.contains(p) implies #[trigger] game.uneaten().contains(p) by {
        let i = choose|i: int| 0 <= i < game.food.len() && game.food[i] == p;
        game.food.lemma_filter_contains(keep, i);
    }
}

/// Eating and growing keep a game on the board: what stays of the food lay
/// there before, and new segments lie on the vacated cell.
pub proof fn eating_and_growth_stay_in_arena(game: GameModel)
    requires
        all_in_arena(game.segments),
        all_in_arena(game.food),
        game.last_tail_position.is_some() ==> game.last_tail_position.unwrap().in_arena(),
    ensures
        all_in_arena(game.eat().food),
        all_in_arena(game.eat().grow().segments),
        all_in_arena(game.grow().segments),
{
    let keep = not_at(game.head_position);
    assert forall|i: int| 0 <= i < game.uneaten().len() implies (#[trigger] game.uneaten()[i]).in_arena() by {
        let p = game.uneaten()[i];
        assert(game.food.filter(keep).contains(p));
        game.food.lemma_filter_contains_rev(keep, p);
        let j = choose|j: int| 0 <= j < game.food.len() && game.food[j] == p;
        assert(game.food[j].in_arena());
    }
}

/// A filter that every item passes keeps the sequence as it is.
proof fn filter_keeps_all(items: Seq<Position>, keep: spec_fn(Position) -> bool)
    requires
        forall|i: int| 0 <= i < items.len() ==> keep(#[trigger] items[i]),
    ensures
        items.filter(keep) == items,
    decreases items.len(),
{
    if items.len() == 0 {
        reveal(Seq::filter);
    } else {
        let front = items.drop_last();
        assert forall|i: int| 0 <= i < front.len() implies keep(#[trigger] front[i]) by {
            assert(front[i] == items[i]);
        }
        filter_keeps_all(front, keep);
        front.lemma_filter_push(items.last(), keep);
        assert(front.push(items.last()) =~= items);
    }
}

/// Without food under the head, eating changes nothing and the body does not
/// grow.
pub proof fn no_food_no_growth(game: GameModel)
    requires
        game.growth_events == 0,
        !game.food.contains(game.head_position),
    ensures
        game.eat() == game,
        game.eat().grow().segments == game.segments,
{
    let keep = not_at(game.head_position);
    assert forall|i: int| 0 <= i < game.food.len() implies keep(#[trigger] game.food[i]) by {
        assert(game.food.contains(game.food[i]));
    }
    filter_keeps_all(game.food, keep);
    assert(game.eat().food =~= game.food);
    match game.last_tail_position {
        Some(tail) => {
            assert(game.segments + copies(0, tail) =~= game.segments);
        },
        None => {},
    }
}

} // verus!
