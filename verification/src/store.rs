//! The session store: one session per player identity.
//!
//! A player who has never interacted is indistinguishable from one whose
//! stored session is `NotStarted`: lookups of absent identities return
//! `NotStarted`. Entries are never removed.

use std::collections::HashMap;

use vstd::prelude::*;

use crate::engine::Session;

verus! {

broadcast use vstd::std_specs::hash::group_hash_axioms;

/// The mapping from player identity to that player's session.
pub struct SessionStore {
    sessions: HashMap<i64, Session>,
}

impl View for SessionStore {
    type V = Map<i64, Session>;

    closed spec fn view(&self) -> Map<i64, Session> {
        self.sessions@
    }
}

impl SessionStore {
    /// The session recorded for a player: `NotStarted` until something else
    /// has been stored.
    pub open spec fn spec_get(self, player: i64) -> Session {
        if self@.contains_key(player) {
            self@[player]
        } else {
            Session::NotStarted
        }
    }

    /// An empty store: every player is `NotStarted`.
    pub fn new() -> (s: Self)
        ensures
            s@ == Map::<i64, Session>::empty(),
    {
        SessionStore { sessions: HashMap::new() }
    }

    /// Looks a player's session up.
    pub fn get(&self, player: i64) -> (s: Session)
        ensures
            s == self.spec_get(player),
    {
        match self.sessions.get(&player) {
            Some(s) => *s,
            None => Session::NotStarted,
        }
    }

    /// Records a player's session, replacing what was stored for that player
    /// and no one else.
    pub fn put(&mut self, player: i64, s: Session)
        ensures
            final(self)@ == old(self)@.insert(player, s),
    {
        self.sessions.insert(player, s);
    }
}

} // verus!
