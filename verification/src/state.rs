//! The state of a game and the mathematical model the contracts speak of.

use vstd::prelude::*;
use crate::grid::{Direction, Position};

verus! {

/// The head of the snake: the heading it moves along, and the heading that a
/// key press has asked for and the next tick will take up.
#[derive(Clone, Copy, Debug)]
pub struct SnekHead {
    pub direction: Direction,
    pub next_direction: Option<Direction>,
}

/// Everything the rules read or change.
///
/// `segments` holds the body, nearest the head first. `last_tail_position` is
/// the cell that the latest tick vacated. `growth_events` counts the food
/// eaten and not yet grown for; `game_over_event` is raised by a collision and
/// taken down by the reset.
#[derive(Debug)]
pub struct Game {
    pub head: SnekHead,
    pub head_position: Position,
    pub segments: Vec<Position>,
    pub food: Vec<Position>,
    pub last_tail_position: Option<Position>,
    pub growth_events: usize,
    pub game_over_event: bool,
}

/// A game as a mathematical value.
pub struct GameModel {
    pub direction: Direction,
    pub next_direction: Option<Direction>,
    pub head_position: Position,
    pub segments: Seq<Position>,
    pub food: Seq<Position>,
    pub last_tail_position: Option<Position>,
    pub growth_events: nat,
    pub game_over_event: bool,
}

impl View for Game {
    type V = GameModel;

    open spec fn view(&self) -> GameModel {
        GameModel {
            direction: self.head.direction,
            next_direction: self.head.next_direction,
            head_position: self.head_position,
            segments: self.segments@,
            food: self.food@,
            last_tail_position: self.last_tail_position,
            growth_events: self.growth_events as nat,
            game_over_event: self.game_over_event,
        }
    }
}

/// The cell of the one body segment a fresh snake has.
pub open spec fn initial_segment() -> Position {
    Position { x: 3, y: 2 }
}

/// The cell of a fresh snake's head.
pub open spec fn initial_head() -> Position {
    Position { x: 3, y: 3 }
}

/// The position handed down the body to index `i` by one tick: the cell that
/// the nearest segment before `i` not lying on `dest` held, or `start` where
/// there is none. A segment on `dest` is the one the head has run into; it
/// stays where it is and hands nothing on.
pub open spec fn carried(segments: Seq<Position>, start: Position, dest: Position, i: int) -> Position
    decreases i,
{
    if i <= 0 {
        start
    } else if segments[i - 1] == dest {
        carried(segments, start, dest, i - 1)
    } else {
        segments[i - 1]
    }
}

/// The body after one tick in which the head left `start` for `dest`.
pub open spec fn shifted(segments: Seq<Position>, start: Position, dest: Position) -> Seq<Position> {
    Seq::new(
        segments.len(),
        |i: int|
            if segments[i] == dest {
                segments[i]
            } else {
                carried(segments, start, dest, i)
            },
    )
}

/// True where every cell of `cells` lies in the arena.
pub open spec fn all_in_arena(cells: Seq<Position>) -> bool {
    forall|i: int| 0 <= i < cells.len() ==> (#[trigger] cells[i]).in_arena()
}

/// The test that food passes where it does not lie on `head`.
pub open spec fn not_at(head: Position) -> spec_fn(Position) -> bool {
    |f: Position| f != head
}

/// `n` times the cell `p`.
pub open spec fn copies(n: nat, p: Position) -> Seq<Position> {
    Seq::new(n, |i: int| p)
}

impl GameModel {
    /// The game at startup and after every reset.
    pub open spec fn initial() -> GameModel {
        GameModel {
            direction: Direction::Up,
            next_direction: None,
            head_position: initial_head(),
            segments: seq![initial_segment()],
            food: Seq::empty(),
            last_tail_position: None,
            growth_events: 0,
            game_over_event: false,
        }
    }

    /// The game with a fresh snake in place of the one it had.
    pub open spec fn with_initial_snake(self) -> GameModel {
        GameModel {
            direction: Direction::Up,
            next_direction: None,
            head_position: initial_head(),
            segments: seq![initial_segment()],
            ..self
        }
    }

    /// The game with one more segment at the tail end.
    pub open spec fn with_segment(self, position: Position) -> GameModel {
        GameModel { segments: self.segments.push(position), ..self }
    }

    /// The game with one more food item.
    pub open spec fn with_food(self, position: Position) -> GameModel {
        GameModel { food: self.food.push(position), ..self }
    }

    /// True where `d` is a turn: neither the current heading nor its opposite.
    pub open spec fn is_turn(self, d: Direction) -> bool {
        d != self.direction && d != self.direction.spec_opposite()
    }

    /// The game after a key press asked for `dir`. A turn is kept for the next
    /// tick; the current heading or its opposite empties the buffer; no request
    /// leaves it as it is.
    pub open spec fn buffer(self, dir: Option<Direction>) -> GameModel {
        match dir {
            Some(d) => GameModel {
                next_direction: if self.is_turn(d) {
                    Some(d)
                } else {
                    None
                },
                ..self
            },
            None => self,
        }
    }

    /// The heading that the next tick commits.
    pub open spec fn heading(self) -> Direction {
        match self.next_direction {
            Some(d) => d,
            None => self.direction,
        }
    }

    /// True where the head can take a step along any heading without leaving
    /// what an `i32` holds.
    pub open spec fn can_advance(self) -> bool {
        &&& i32::MIN < self.head_position.x < i32::MAX
        &&& i32::MIN < self.head_position.y < i32::MAX
    }

    /// The cell that the next tick moves the head to.
    pub open spec fn destination(self) -> Position {
        self.head_position.spec_step(self.heading())
    }

    /// True where the next tick ends the game: the head leaves the arena or
    /// runs into a segment.
    pub open spec fn crashes(self) -> bool {
        self.destination().spec_out_of_bounds() || self.segments.contains(self.destination())
    }

    /// The cell that the next tick vacates.
    pub open spec fn vacated(self) -> Position {
        carried(self.segments, self.head_position, self.destination(), self.segments.len() as int)
    }

    /// The game after one tick.
    pub open spec fn advance(self) -> GameModel {
        GameModel {
            direction: self.heading(),
            next_direction: None,
            head_position: self.destination(),
            segments: shifted(self.segments, self.head_position, self.destination()),
            last_tail_position: Some(self.vacated()),
            game_over_event: self.game_over_event || self.crashes(),
            ..self
        }
    }

    /// The game after the movement step of one frame.
    pub open spec fn movement(self, dir: Option<Direction>, tick: bool) -> GameModel {
        if tick {
            self.buffer(dir).advance()
        } else {
            self.buffer(dir)
        }
    }

    /// The food that does not lie under the head.
    pub open spec fn uneaten(self) -> Seq<Position> {
        self.food.filter(not_at(self.head_position))
    }

    /// The game after the head has eaten what lies under it: one growth signal
    /// for each item.
    pub open spec fn eat(self) -> GameModel {
        GameModel {
            food: self.uneaten(),
            growth_events: (self.growth_events + self.food.len() - self.uneaten().len()) as nat,
            ..self
        }
    }

    /// The game after the eating step of one frame.
    pub open spec fn eating(self, tick: bool) -> GameModel {
        if tick {
            self.eat()
        } else {
            self
        }
    }

    /// The game after the growth step: one new segment on the vacated cell for
    /// each pending signal.
    pub open spec fn grow(self) -> GameModel {
        match self.last_tail_position {
            Some(tail) => GameModel {
                segments: self.segments + copies(self.growth_events, tail),
                growth_events: 0,
                ..self
            },
            None => self,
        }
    }

    /// The game after the reset step: the initial game where the game was
    /// over, the same game where it was not.
    pub open spec fn settle(self) -> GameModel {
        if self.game_over_event {
            GameModel::initial()
        } else {
            self
        }
    }

    /// The game after one frame: movement, eating, growth and reset, in that
    /// order.
    pub open spec fn frame(self, dir: Option<Direction>, tick: bool) -> GameModel {
        self.movement(dir, tick).eating(tick).grow().settle()
    }

    /// What holds between frames: the head is in the arena, no signal is
    /// pending, and what the buffer holds is a turn.
    pub open spec fn settled(self) -> bool {
        &&& self.head_position.in_arena()
        &&& self.growth_events == 0
        &&& !self.game_over_event
        &&& match self.next_direction {
            Some(d) => self.is_turn(d),
            None => true,
        }
    }

    /// A settled game with every segment and every food item in the arena.
    pub open spec fn on_board(self) -> bool {
        &&& self.settled()
        &&& all_in_arena(self.segments)
        &&& all_in_arena(self.food)
    }
}

impl Game {
    /// A game at startup.
    pub fn new() -> (game: Game)
        ensures
            game@ == GameModel::initial(),
            game@.settled(),
            game@.on_board(),
    {
        let mut segments: Vec<Position> = Vec::new();
        segments.push(Position { x: 3, y: 2 });
        let game = Game {
            head: SnekHead { direction: Direction::Up, next_direction: None },
            head_position: Position { x: 3, y: 3 },
            segments,
            food: Vec::new(),
            last_tail_position: None,
            growth_events: 0,
            game_over_event: false,
        };
        assert(game@.segments =~= seq![initial_segment()]);
        game
    }

    /// Tells whether the game is as it should be between frames.
    pub fn is_settled(&self) -> (r: bool)
        ensures
            r == self@.settled(),
    {
        let turn = match self.head.next_direction {
            Some(d) => d != self.head.direction && d != self.head.direction.opposite(),
            None => true,
        };
        !self.head_position.out_of_bounds() && self.growth_events == 0 && !self.game_over_event
            && turn
    }

    /// Appends one segment at the tail end of the body.
    pub fn spawn_segment(&mut self, position: Position)
        ensures
            final(self)@ == old(self)@.with_segment(position),
    {
        self.segments.push(position);
    }

    /// Replaces the snake by a fresh one: one segment, the head next to it,
    /// heading up, nothing buffered. Food and signals stay.
    pub fn spawn_initial_snake(&mut self)
        ensures
            final(self)@ == old(self)@.with_initial_snake(),
    {
        self.segments.clear();
        self.spawn_segment(Position { x: 3, y: 2 });
        self.head = SnekHead { direction: Direction::Up, next_direction: None };
        self.head_position = Position { x: 3, y: 3 };
        assert(self@.segments =~= seq![initial_segment()]);
    }

    /// The reset step. Where a game-over signal is pending, everything goes:
    /// segments, food, head, the vacated cell and pending growth; a fresh snake
    /// is spawned and the signal is taken down. Without a signal nothing
    /// changes.
    pub fn game_over(&mut self)
        ensures
            final(self)@ == old(self)@.settle(),
            old(self)@.game_over_event ==> final(self)@ == GameModel::initial(),
            !final(self)@.game_over_event,
    {
        if self.game_over_event {
            self.food.clear();
            self.last_tail_position = None;
            self.growth_events = 0;
            self.game_over_event = false;
            self.spawn_initial_snake();
            assert(self@.food =~= Seq::empty());
        }
    }
}

} // verus!
