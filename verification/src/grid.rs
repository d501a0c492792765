//! Geometry of the toroidal board: cells, headings, and the wraparound step.

use vstd::arithmetic::div_mod::{lemma_mod_add_multiples_vanish, lemma_mod_self_0, lemma_small_mod};
use vstd::prelude::*;

verus! {

/// One of the four headings a snake can take. On the board `y` grows downward,
/// so `Up` lowers `y` and `Down` raises it.
#[derive(Debug, Clone, Copy, PartialEq, Eq, Structural)]
pub enum Direction {
    Up,
    Down,
    Left,
    Right,
}

/// A board cell. Two positions are the same cell exactly when both coordinates agree.
#[derive(Debug, Clone, Copy, PartialEq, Eq, Structural)]
pub struct Position {
    pub x: i32,
    pub y: i32,
}

impl Direction {
    /// The heading that points the other way: `Up`/`Down` and `Left`/`Right` are the two pairs.
    pub open spec fn reversed(self) -> Direction {
        match self {
            Direction::Up => Direction::Down,
            Direction::Down => Direction::Up,
            Direction::Left => Direction::Right,
            Direction::Right => Direction::Left,
        }
    }

    /// Horizontal displacement of one step in this heading.
    pub open spec fn dx(self) -> int {
        match self {
            Direction::Left => -1,
            Direction::Right => 1,
            _ => 0,
        }
    }

    /// Vertical displacement of one step in this heading.
    pub open spec fn dy(self) -> int {
        match self {
            Direction::Up => -1,
            Direction::Down => 1,
            _ => 0,
        }
    }

    /// Returns the opposite heading.
    pub fn opposite(self) -> (r: Direction)
        ensures
            r == self.reversed(),
    {
        match self {
            Direction::Up => Direction::Down,
            Direction::Down => Direction::Up,
            Direction::Left => Direction::Right,
            Direction::Right => Direction::Left,
        }
    }

    /// Tells whether `other` is the exact reversal of this heading.
    pub fn is_opposite(self, other: Direction) -> (r: bool)
        ensures
            r == (other == self.reversed()),
    {
        match (self, other) {
            (Direction::Up, Direction::Down) => true,
            (Direction::Down, Direction::Up) => true,
            (Direction::Left, Direction::Right) => true,
            (Direction::Right, Direction::Left) => true,
            _ => false,
        }
    }
}

impl Position {
    /// The cell lies on a board of the given width and height.
    pub open spec fn within(self, bounds: (i32, i32)) -> bool {
        0 <= self.x < bounds.0 && 0 <= self.y < bounds.1
    }
}

/// Coordinate `n` folded onto an axis of length `bound`: the non-negative remainder.
pub open spec fn wrapped(n: int, bound: int) -> int {
    n % bound
}

/// The cell reached from `position` by one step in `direction` on a board that wraps
/// around at its edges: the displacement is applied, then each coordinate is folded
/// onto its axis.
pub open spec fn advanced(position: Position, direction: Direction, bounds: (i32, i32)) -> Position {
    Position {
        x: wrapped(position.x + direction.dx(), bounds.0 as int) as i32,
        y: wrapped(position.y + direction.dy(), bounds.1 as int) as i32,
    }
}

/// Folds `n` onto an axis of length `bound`.
pub fn wrap_coordinate(n: i64, bound: i32) -> (r: i32)
    requires
        bound != 0,
        i32::MIN - 1 <= n <= i32::MAX + 1,
    ensures
        r == wrapped(n as int, bound as int),
        bound > 0 ==> 0 <= r < bound,
{
    match n.checked_rem_euclid(bound as i64) {
        Some(r) => r as i32,
        // Only a zero bound has no remainder.
        None => 0,
    }
}

/// Moves one cell in `direction`, re-entering at the opposite edge when the step
/// leaves the board.
pub fn advance(position: Position, direction: Direction, bounds: (i32, i32)) -> (next: Position)
    requires
        bounds.0 != 0,
        bounds.1 != 0,
    ensures
        next == advanced(position, direction, bounds),
        bounds.0 > 0 && bounds.1 > 0 ==> next.within(bounds),
        bounds.0 > 0 && bounds.1 > 0 && position.within(bounds) ==> next == neighbour(
            position,
            direction,
            bounds,
        ),
{
    proof {
        if bounds.0 > 0 && bounds.1 > 0 && position.within(bounds) {
            lemma_advance_wraps_at_edges(position, direction, bounds);
        }
    }
    let dx: i64 = match direction {
        Direction::Left => -1,
        Direction::Right => 1,
        _ => 0,
    };
    let dy: i64 = match direction {
        Direction::Up => -1,
        Direction::Down => 1,
        _ => 0,
    };
    Position {
        x: wrap_coordinate(position.x as i64 + dx, bounds.0),
        y: wrap_coordinate(position.y as i64 + dy, bounds.1),
    }
}

/// Folding on an axis of positive length: a coordinate already on the axis stays put,
/// one step below zero lands on the last cell, one step past the end lands on zero.
pub proof fn lemma_wrapped_near_axis(n: int, bound: int)
    requires
        bound > 0,
        -1 <= n <= bound,
    ensures
        wrapped(n, bound) == if n == -1 {
            bound - 1
        } else if n == bound {
            0
        } else {
            n
        },
{
    if n == -1 {
        lemma_mod_add_multiples_vanish(-1, bound);
        lemma_small_mod((bound - 1) as nat, bound as nat);
    } else if n == bound {
        lemma_mod_self_0(bound);
    } else {
        lemma_small_mod(n as nat, bound as nat);
    }
}

/// The neighbour of an on-board cell written out edge by edge: the far edge when the
/// step leaves the board, the adjacent cell otherwise.
pub open spec fn neighbour(position: Position, direction: Direction, bounds: (i32, i32)) -> Position {
    match direction {
        Direction::Left => Position {
            x: if position.x == 0 { (bounds.0 - 1) as i32 } else { (position.x - 1) as i32 },
            y: position.y,
        },
        Direction::Right => Position {
            x: if position.x == bounds.0 - 1 { 0 } else { (position.x + 1) as i32 },
            y: position.y,
        },
        Direction::Up => Position {
            x: position.x,
            y: if position.y == 0 { (bounds.1 - 1) as i32 } else { (position.y - 1) as i32 },
        },
        Direction::Down => Position {
            x: position.x,
            y: if position.y == bounds.1 - 1 { 0 } else { (position.y + 1) as i32 },
        },
    }
}

/// Wraparound law: from a cell on the board, moving `Left` from `x = 0` lands on
/// `x = width - 1`, moving `Right` from `x = width - 1` lands on `x = 0`, and likewise
/// for `Up` and `Down` on the vertical axis; away from the edges a step changes the
/// moved coordinate by one. The other coordinate never changes.
pub proof fn lemma_advance_wraps_at_edges(position: Position, direction: Direction, bounds: (i32, i32))
    requires
        bounds.0 > 0,
        bounds.1 > 0,
        position.within(bounds),
    ensures
        advanced(position, direction, bounds) == neighbour(position, direction, bounds),
{
    lemma_wrapped_near_axis(position.x + direction.dx(), bounds.0 as int);
    lemma_wrapped_near_axis(position.y + direction.dy(), bounds.1 as int);
}

/// On a board of positive size every step lands on the board, wherever it starts.
pub proof fn lemma_advance_stays_on_board(position: Position, direction: Direction, bounds: (i32, i32))
    requires
        bounds.0 > 0,
        bounds.1 > 0,
    ensures
        advanced(position, direction, bounds).within(bounds),
{
}

} // verus!
