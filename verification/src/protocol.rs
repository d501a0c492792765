//! What a client may ask of its session, and what each request does to it.
//!
//! A message carries an action name and, depending on the action, a heading or a
//! flag. Splitting the message into these fields is the caller's business; which
//! names mean what, and what follows, is decided here.

use crate::game::{GameState, GameView};
use crate::grid::Direction;
use std::time::Instant;
use vstd::prelude::*;

verus! {

/// A client's request, decoded.
#[derive(Debug, Clone, Copy, PartialEq, Eq, Structural)]
pub enum ClientAction {
    /// Head in the given direction.
    Steer(Direction),
    /// Switch move recording on or off.
    SetTraining(bool),
    /// Nothing to do: the action is unknown, or the field it needs is missing.
    Ignore,
}

/// The request a message stands for. `"direction"` with a heading steers,
/// `"toggle_ml_training"` with a flag sets the recording mode; everything else,
/// a known action without its field included, asks for nothing.
pub open spec fn decoded(action: Seq<char>, direction: Option<Direction>, ml_training: Option<bool>) -> ClientAction {
    if action == "direction"@ {
        match direction {
            Some(heading) => ClientAction::Steer(heading),
            None => ClientAction::Ignore,
        }
    } else if action == "toggle_ml_training"@ {
        match ml_training {
            Some(on) => ClientAction::SetTraining(on),
            None => ClientAction::Ignore,
        }
    } else {
        ClientAction::Ignore
    }
}

/// Tells whether two strings hold the same text.
pub fn same_text(a: &str, b: &str) -> (same: bool)
    ensures
        same == (a@ == b@),
{
    a.to_owned() == b.to_owned()
}

/// Decodes the fields of a message into a request.
pub fn decode(action: &str, direction: Option<Direction>, ml_training: Option<bool>) -> (request:
    ClientAction)
    ensures
        request == decoded(action@, direction, ml_training),
{
    if same_text(action, "direction") {
        match direction {
            Some(heading) => ClientAction::Steer(heading),
            None => ClientAction::Ignore,
        }
    } else if same_text(action, "toggle_ml_training") {
        match ml_training {
            Some(on) => ClientAction::SetTraining(on),
            None => ClientAction::Ignore,
        }
    } else {
        ClientAction::Ignore
    }
}

impl GameView {
    /// The session after `request`, made at clock reading `now`. Steering asks the
    /// snake for the heading and, while moves are recorded, logs the heading asked
    /// for, accepted or not. Setting the recording mode stores the flag, and starts
    /// from an empty log whenever the mode is set to on.
    pub open spec fn applied(self, request: ClientAction, now: Instant) -> GameView {
        match request {
            ClientAction::Steer(heading) => GameView {
                snake: self.snake.turned(heading, now),
                bot_moves: if self.ml_training {
                    self.bot_moves.push(heading)
                } else {
                    self.bot_moves
                },
                ..self
            },
            ClientAction::SetTraining(on) => GameView {
                ml_training: on,
                bot_moves: if on {
                    Seq::empty()
                } else {
                    self.bot_moves
                },
                ..self
            },
            ClientAction::Ignore => self,
        }
    }
}

impl GameState {
    /// Carries out `request` as made at clock reading `now`.
    pub fn apply_at(&mut self, request: ClientAction, now: Instant)
        ensures
            final(self)@ == old(self)@.applied(request, now),
    {
        match request {
            ClientAction::Steer(heading) => {
                self.snake.set_direction_at(heading, now);
                if self.ml_training {
                    self.bot_moves.push(heading);
                }
            },
            ClientAction::SetTraining(on) => {
                self.ml_training = on;
                if on {
                    self.bot_moves.clear();
                }
            },
            ClientAction::Ignore => {},
        }
    }

    /// Carries out `request` now, by the monotonic clock.
    pub fn apply(&mut self, request: ClientAction)
        ensures
            exists|now: Instant| final(self)@ == #[trigger] old(self)@.applied(request, now),
    {
        self.apply_at(request, Instant::now());
    }
}

} // verus!
