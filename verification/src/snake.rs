//! The snake: an ordered body of cells, a heading, and the rules for moving,
//! growing and turning.

use crate::clock::{elapsed_millis, millis_between};
use crate::grid::{advance, advanced, lemma_advance_stays_on_board, Direction, Position};
use std::collections::VecDeque;
use std::time::Instant;
use vstd::prelude::*;

verus! {

/// Shortest time, in milliseconds, between two accepted direction changes of one snake.
pub const DEBOUNCE_MILLIS: u128 = 50;

/// A snake on the board. `body` runs from the head (front) to the tail (back).
#[derive(Debug, Clone)]
pub struct Snake {
    pub body: VecDeque<Position>,
    pub direction: Direction,
    pub growing: bool,
    /// Clock reading of the last accepted direction change, if any.
    pub last_direction_change: Option<Instant>,
}

/// What a snake is, mathematically: the cells of its body from head to tail, its
/// heading, whether it grows on its next move, and the clock reading of the last
/// accepted direction change.
pub struct SnakeView {
    pub body: Seq<Position>,
    pub direction: Direction,
    pub growing: bool,
    pub last_change: Option<Instant>,
}

impl SnakeView {
    /// The snake as it is created: one cell, heading right, nothing pending.
    pub open spec fn fresh(start: Position) -> SnakeView {
        SnakeView { body: seq![start], direction: Direction::Right, growing: false, last_change: None }
    }

    /// A snake always has a head.
    pub open spec fn wf(self) -> bool {
        self.body.len() > 0
    }

    /// Every cell of the body lies on the board.
    pub open spec fn within(self, bounds: (i32, i32)) -> bool {
        forall|i: int| 0 <= i < self.body.len() ==> (#[trigger] self.body[i]).within(bounds)
    }

    pub open spec fn head(self) -> Position {
        self.body[0]
    }

    /// The cell the head would enter on the next move.
    pub open spec fn next_head(self, bounds: (i32, i32)) -> Position {
        advanced(self.head(), self.direction, bounds)
    }

    /// The next move runs into the snake itself. The whole current body counts, the
    /// tail cell included, although a move that does not grow would vacate it.
    pub open spec fn collides(self, bounds: (i32, i32)) -> bool {
        self.body.contains(self.next_head(bounds))
    }

    /// The snake after one move: unchanged on a collision; otherwise the new head is
    /// put in front, the tail is dropped unless growth was pending, and nothing is
    /// pending any more.
    pub open spec fn moved(self, bounds: (i32, i32)) -> SnakeView {
        if self.collides(bounds) {
            self
        } else {
            SnakeView {
                body: seq![self.next_head(bounds)] + if self.growing {
                    self.body
                } else {
                    self.body.drop_last()
                },
                growing: false,
                ..self
            }
        }
    }

    /// The snake with growth pending.
    pub open spec fn grown(self) -> SnakeView {
        SnakeView { growing: true, ..self }
    }

    /// A request to head in `requested` at clock reading `now` is accepted: it is no
    /// reversal of the current heading, and the last accepted change, if there was
    /// one, lies at least the debounce interval back.
    pub open spec fn accepts(self, requested: Direction, now: Instant) -> bool {
        &&& requested != self.direction.reversed()
        &&& match self.last_change {
            Some(last) => millis_between(now, last) >= DEBOUNCE_MILLIS,
            None => true,
        }
    }

    /// The snake after a request to head in `requested` at clock reading `now`.
    pub open spec fn turned(self, requested: Direction, now: Instant) -> SnakeView {
        if self.accepts(requested, now) {
            SnakeView { direction: requested, last_change: Some(now), ..self }
        } else {
            self
        }
    }
}

impl View for Snake {
    type V = SnakeView;

    open spec fn view(&self) -> SnakeView {
        SnakeView {
            body: self.body@,
            direction: self.direction,
            growing: self.growing,
            last_change: self.last_direction_change,
        }
    }
}

impl Snake {
    /// Creates a one-cell snake at `start_pos`, heading right.
    pub fn new(start_pos: Position) -> (snake: Snake)
        ensures
            snake@ == SnakeView::fresh(start_pos),
    {
        let mut body = VecDeque::new();
        body.push_back(start_pos);
        let snake = Snake { body, direction: Direction::Right, growing: false, last_direction_change: None };
        assert(snake.body@ =~= seq![start_pos]);
        snake
    }

    /// The head cell.
    pub fn head(&self) -> (head: Position)
        requires
            self@.wf(),
        ensures
            head == self@.head(),
    {
        self.body[0]
    }

    /// Tells whether `cell` is one of the body's cells.
    pub fn occupies(&self, cell: Position) -> (hit: bool)
        ensures
            hit == self@.body.contains(cell),
    {
        let n = self.body.len();
        let mut i: usize = 0;
        while i < n
            invariant
                n == self.body@.len(),
                i <= n,
                forall|j: int| 0 <= j < i ==> self.body@[j] != cell,
            decreases n - i,
        {
            let here = self.body[i];
            if here.x == cell.x && here.y == cell.y {
                return true;
            }
            i += 1;
        }
        false
    }

    /// Moves one cell in the current heading. Returns `false`, leaving the snake as it
    /// was, when the cell ahead is occupied by the snake's own body (tail included).
    /// Otherwise the snake enters that cell; it keeps its length unless growth was
    /// pending, in which case it is one cell longer, and no growth is pending afterwards.
    pub fn move_forward(&mut self, bounds: (i32, i32)) -> (moved: bool)
        requires
            old(self)@.wf(),
            bounds.0 != 0,
            bounds.1 != 0,
        ensures
            moved == !old(self)@.collides(bounds),
            final(self)@ == old(self)@.moved(bounds),
            final(self)@.wf(),
            moved ==> final(self)@.body.len() == old(self)@.body.len() + if old(self)@.growing {
                1int
            } else {
                0int
            },
            moved ==> !final(self)@.growing,
            !moved ==> final(self)@ == old(self)@,
    {
        let new_head = advance(self.head(), self.direction, bounds);
        if self.occupies(new_head) {
            return false;
        }
        self.body.push_front(new_head);
        if !self.growing {
            self.body.pop_back();
        }
        self.growing = false;
        assert(self.body@ =~= old(self)@.moved(bounds).body);
        true
    }

    /// Makes the next successful move lengthen the snake by one cell.
    pub fn grow(&mut self)
        ensures
            final(self)@ == old(self)@.grown(),
    {
        self.growing = true;
    }

    /// Requests a new heading at clock reading `now`. The request is dropped, and
    /// nothing changes, when it would reverse the snake or comes less than
    /// `DEBOUNCE_MILLIS` after the last accepted request; otherwise the snake takes
    /// the heading and remembers `now`.
    pub fn set_direction_at(&mut self, new_direction: Direction, now: Instant) -> (accepted: bool)
        ensures
            accepted == old(self)@.accepts(new_direction, now),
            final(self)@ == old(self)@.turned(new_direction, now),
    {
        let reversal = self.direction.is_opposite(new_direction);
        let can_change = match self.last_direction_change {
            Some(last) => elapsed_millis(now, last) >= DEBOUNCE_MILLIS,
            None => true,
        };
        if !reversal && can_change {
            self.direction = new_direction;
            self.last_direction_change = Some(now);
            true
        } else {
            false
        }
    }

    /// Requests a new heading now, by the monotonic clock. Whatever the clock reads,
    /// a reversal is dropped and the first request that is no reversal is accepted;
    /// in between the debounce rule decides, as `set_direction_at` states it.
    pub fn set_direction(&mut self, new_direction: Direction)
        ensures
            exists|now: Instant| final(self)@ == #[trigger] old(self)@.turned(new_direction, now),
            new_direction == old(self)@.direction.reversed() ==> final(self)@ == old(self)@,
            new_direction != old(self)@.direction.reversed() && old(self)@.last_change is None
                ==> final(self)@.direction == new_direction && final(self)@.last_change is Some,
    {
        let now = Instant::now();
        self.set_direction_at(new_direction, now);
    }
}

/// A snake is created heading right, so a request to head left is a reversal: it is
/// dropped whatever the clock reads, and the heading stays right.
pub proof fn lemma_fresh_snake_refuses_left(start: Position, now: Instant)
    ensures
        !SnakeView::fresh(start).accepts(Direction::Left, now),
        SnakeView::fresh(start).turned(Direction::Left, now) == SnakeView::fresh(start),
        SnakeView::fresh(start).turned(Direction::Left, now).direction == Direction::Right,
{
}

/// Debounce law. After a change accepted at reading `at`, a request made at reading
/// `later` is dropped when fewer than `DEBOUNCE_MILLIS` milliseconds lie between the
/// two readings, whatever it asks for; when at least that many lie between them, it is
/// accepted unless it reverses the heading just taken.
pub proof fn lemma_debounce(
    snake: SnakeView,
    first: Direction,
    at: Instant,
    second: Direction,
    later: Instant,
)
    requires
        snake.accepts(first, at),
    ensures
        millis_between(later, at) < DEBOUNCE_MILLIS ==> snake.turned(first, at).turned(second, later)
            == snake.turned(first, at),
        millis_between(later, at) >= DEBOUNCE_MILLIS && second != first.reversed() ==> {
            &&& snake.turned(first, at).accepts(second, later)
            &&& snake.turned(first, at).turned(second, later).direction == second
            &&& snake.turned(first, at).turned(second, later).last_change == Some(later)
        },
{
}

/// Turning never touches the body or the pending growth.
pub proof fn lemma_turn_keeps_body(snake: SnakeView, requested: Direction, now: Instant)
    ensures
        snake.turned(requested, now).body == snake.body,
        snake.turned(requested, now).growing == snake.growing,
        snake.turned(requested, now).direction == requested || snake.turned(requested, now).direction
            == snake.direction,
{
}

/// Length law. A move that does not collide puts the head on the cell ahead and keeps
/// the length, unless growth was pending: then the snake is exactly one cell longer.
/// Either way no growth is pending afterwards.
pub proof fn lemma_move_length(snake: SnakeView, bounds: (i32, i32))
    requires
        snake.wf(),
        !snake.collides(bounds),
    ensures
        snake.moved(bounds).head() == snake.next_head(bounds),
        snake.moved(bounds).body.len() == snake.body.len() + if snake.growing {
            1int
        } else {
            0int
        },
        !snake.moved(bounds).growing,
        snake.moved(bounds).direction == snake.direction,
{
}

/// Growth is deferred: asking for it changes nothing but the pending flag, and the
/// body is longer only after the next move that does not collide.
pub proof fn lemma_growth_is_deferred(snake: SnakeView, bounds: (i32, i32))
    requires
        snake.wf(),
        !snake.collides(bounds),
    ensures
        snake.grown().body == snake.body,
        snake.grown().moved(bounds).body.len() == snake.body.len() + 1,
{
}

/// A move into the snake's own body fails and leaves the snake exactly as it was.
pub proof fn lemma_collision_changes_nothing(snake: SnakeView, bounds: (i32, i32))
    requires
        snake.collides(bounds),
    ensures
        snake.moved(bounds) == snake,
{
}

/// On a board of positive size a snake that lies on the board stays on it when it moves.
pub proof fn lemma_move_stays_on_board(snake: SnakeView, bounds: (i32, i32))
    requires
        snake.wf(),
        snake.within(bounds),
        bounds.0 > 0,
        bounds.1 > 0,
    ensures
        snake.moved(bounds).wf(),
        snake.moved(bounds).within(bounds),
{
    lemma_advance_stays_on_board(snake.head(), snake.direction, bounds);
    let after = snake.moved(bounds);
    assert forall|i: int| 0 <= i < after.body.len() implies (#[trigger] after.body[i]).within(bounds) by {
        if !snake.collides(bounds) && i > 0 {
            assert(after.body[i] == snake.body[i - 1]);
        }
    }
}

} // verus!
