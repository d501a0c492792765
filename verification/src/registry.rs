//! The registry of live sessions, and the steps a connection takes on it.
//!
//! A session is reached only through the registry and only for the length of one
//! call, so a tick and a client's request never see each other half done.

use crate::game::{GameState, GameView};
use crate::grid::Position;
use crate::protocol::ClientAction;
use std::collections::HashMap;
use std::time::Instant;
use uuid::Uuid;
use vstd::prelude::*;

verus! {

broadcast use vstd::std_specs::hash::group_hash_axioms;

/// Width of every session's board.
pub const BOARD_WIDTH: i32 = 30;

/// Height of every session's board.
pub const BOARD_HEIGHT: i32 = 30;

/// Milliseconds between two ticks of one session.
pub const TICK_MILLIS: u64 = 100;

/// How a tick of one session ended.
#[derive(Debug, Clone, Copy, PartialEq, Eq, Structural)]
pub enum Tick {
    /// The session is not registered (any more): its ticking is to stop.
    Gone,
    /// The session was advanced by one tick: its state is to be published.
    Advanced,
    /// A counter of the session has reached its limit: the session was left as it was.
    Stalled,
}

/// The sessions of all connected clients, by session identifier.
pub struct Registry {
    sessions: HashMap<u128, GameState>,
}

/// Makes up an identifier for a new session: a random (version 4) UUID from
/// `uuid::Uuid::new_v4`, taken as the 128-bit number that `Uuid::as_u128` packs its
/// bytes into. Nothing is assumed about the number, not even that it is new. The
/// call returns unless the operating system refuses to hand out random bytes.
#[verifier::external_body]
fn fresh_session_id() -> (id: u128) {
    Uuid::new_v4().as_u128()
}

impl View for Registry {
    type V = Map<u128, GameView>;

    closed spec fn view(&self) -> Map<u128, GameView> {
        Map::new(|id: u128| self.sessions@.contains_key(id), |id: u128| self.sessions@[id]@)
    }
}

impl Registry {
    /// Every registered session has a snake with a head. The registry's own
    /// operations establish and keep this.
    pub open spec fn wf(&self) -> bool {
        forall|id: u128| self@.contains_key(id) ==> (#[trigger] self@[id]).wf()
    }

    /// Creates a registry without sessions.
    pub fn new() -> (registry: Registry)
        ensures
            registry.wf(),
            registry@ == Map::<u128, GameView>::empty(),
    {
        let registry = Registry { sessions: HashMap::new() };
        assert(registry@ =~= Map::<u128, GameView>::empty());
        registry
    }

    /// Tells whether a session is registered under `id`.
    pub fn contains(&self, id: u128) -> (present: bool)
        ensures
            present == self@.contains_key(id),
    {
        self.sessions.contains_key(&id)
    }

    /// Registers a new session under `id`. Fails, changing nothing, if the
    /// identifier is taken.
    pub fn create(&mut self, id: u128, bounds: (i32, i32)) -> (created: bool)
        requires
            old(self).wf(),
            bounds.0 > 0,
            bounds.1 > 0,
        ensures
            final(self).wf(),
            created == !old(self)@.contains_key(id),
            !created ==> final(self)@ == old(self)@,
            created ==> {
                &&& final(self)@.contains_key(id)
                &&& final(self)@[id].food.within(bounds)
                &&& final(self)@ == old(self)@.insert(id, GameView::initial(bounds, final(self)@[id].food))
            },
    {
        if self.sessions.contains_key(&id) {
            return false;
        }
        let state = GameState::new(bounds);
        self.sessions.insert(id, state);
        assert(self@ =~= old(self)@.insert(id, GameView::initial(bounds, state.food)));
        true
    }

    /// Registers a new session under an identifier made up for it, and returns the
    /// identifier. Fails, changing nothing, only in the unlikely case that the identifier
    /// is taken by a registered session: on a registry without sessions it never fails.
    pub fn open(&mut self, bounds: (i32, i32)) -> (opened: Option<u128>)
        requires
            old(self).wf(),
            bounds.0 > 0,
            bounds.1 > 0,
        ensures
            final(self).wf(),
            match opened {
                Some(id) => {
                    &&& !old(self)@.contains_key(id)
                    &&& final(self)@.contains_key(id)
                    &&& final(self)@[id].food.within(bounds)
                    &&& final(self)@ == old(self)@.insert(
                        id,
                        GameView::initial(bounds, final(self)@[id].food),
                    )
                },
                None => {
                    &&& final(self)@ == old(self)@
                    &&& exists|taken: u128| old(self)@.contains_key(taken)
                },
            },
    {
        let id = fresh_session_id();
        if self.create(id, bounds) {
            Some(id)
        } else {
            None
        }
    }

    /// Advances the session registered under `id` by one tick.
    pub fn tick(&mut self, id: u128, bounds: (i32, i32)) -> (outcome: Tick)
        requires
            old(self).wf(),
            bounds.0 > 0,
            bounds.1 > 0,
        ensures
            final(self).wf(),
            match outcome {
                Tick::Gone => !old(self)@.contains_key(id) && final(self)@ == old(self)@,
                Tick::Stalled => {
                    &&& old(self)@.contains_key(id)
                    &&& !old(self)@[id].can_count()
                    &&& final(self)@ == old(self)@
                },
                Tick::Advanced => {
                    &&& old(self)@.contains_key(id)
                    &&& old(self)@[id].can_count()
                    &&& exists|now: Instant, next_food: Position|
                        next_food.within(bounds) && final(self)@ == old(self)@.insert(
                            id,
                            #[trigger] old(self)@[id].ticked(bounds, now, next_food),
                        )
                },
            },
    {
        match self.sessions.remove(&id) {
            None => {
                assert(self@ =~= old(self)@);
                Tick::Gone
            },
            Some(mut state) => {
                assert(state@ == old(self)@[id]);
                let outcome = if state.can_count() {
                    state.update(bounds);
                    Tick::Advanced
                } else {
                    Tick::Stalled
                };
                self.sessions.insert(id, state);
                assert(self@ =~= old(self)@.insert(id, state@));
                outcome
            },
        }
    }

    /// Carries out a client's request on the session registered under `id`. Returns
    /// `false`, changing nothing, if there is no such session.
    pub fn apply(&mut self, id: u128, request: ClientAction) -> (found: bool)
        requires
            old(self).wf(),
        ensures
            final(self).wf(),
            found == old(self)@.contains_key(id),
            !found ==> final(self)@ == old(self)@,
            found ==> exists|now: Instant|
                final(self)@ == old(self)@.insert(id, #[trigger] old(self)@[id].applied(request, now)),
    {
        match self.sessions.remove(&id) {
            None => {
                assert(self@ =~= old(self)@);
                false
            },
            Some(mut state) => {
                assert(state@ == old(self)@[id]);
                state.apply(request);
                self.sessions.insert(id, state);
                assert(self@ =~= old(self)@.insert(id, state@));
                true
            },
        }
    }

    /// The session registered under `id`, to look at.
    pub fn snapshot(&self, id: u128) -> (session: Option<&GameState>)
        ensures
            match session {
                Some(state) => self@.contains_key(id) && state@ == self@[id],
                None => !self@.contains_key(id),
            },
    {
        self.sessions.get(&id)
    }

    /// Removes the session registered under `id`, if there is one.
    pub fn remove(&mut self, id: u128)
        requires
            old(self).wf(),
        ensures
            final(self).wf(),
            final(self)@ == old(self)@.remove(id),
    {
        self.sessions.remove(&id);
        assert(self@ =~= old(self)@.remove(id));
    }
}

/// Removing a session twice is removing it once, and removing one that is not
/// registered changes nothing.
pub proof fn lemma_remove_is_idempotent(sessions: Map<u128, GameView>, id: u128)
    ensures
        !sessions.remove(id).contains_key(id),
        sessions.remove(id).remove(id) == sessions.remove(id),
        !sessions.contains_key(id) ==> sessions.remove(id) == sessions,
{
    assert(sessions.remove(id).remove(id) =~= sessions.remove(id));
    if !sessions.contains_key(id) {
        assert(sessions.remove(id) =~= sessions);
    }
}

/// Sessions do not touch each other: replacing or removing the session under one
/// identifier leaves every other identifier with the session it had.
pub proof fn lemma_sessions_are_isolated(sessions: Map<u128, GameView>, id: u128, state: GameView, other: u128)
    requires
        other != id,
    ensures
        sessions.insert(id, state).contains_key(other) == sessions.contains_key(other),
        sessions.remove(id).contains_key(other) == sessions.contains_key(other),
        sessions.contains_key(other) ==> sessions.insert(id, state)[other] == sessions[other]
            && sessions.remove(id)[other] == sessions[other],
{
}

} // verus!
