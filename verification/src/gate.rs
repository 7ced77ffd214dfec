//! The activation gate: a process-wide flag, off until a designated start
//! command arrives, that decides whether player input reaches the game
//! engine at all. It is global, not per player, and is never switched back
//! off.

use vstd::prelude::*;

verus! {

/// The process-wide activation flag. While unset, no player input is
/// evaluated by the game engine.
pub struct ActivationGate {
    active: bool,
}

impl ActivationGate {
    /// Whether the game has been started.
    pub closed spec fn is_active(self) -> bool {
        self.active
    }

    /// A fresh gate: closed, the game has not started.
    pub fn new() -> (g: Self)
        ensures
            !g.is_active(),
    {
        ActivationGate { active: false }
    }

    /// Starts the game; once started it stays started.
    pub fn activate(&mut self)
        ensures
            final(self).is_active(),
    {
        self.active = true;
    }

    /// Whether the game has been started, for the dispatch decision.
    pub fn active(&self) -> (b: bool)
        ensures
            b == self.is_active(),
    {
        self.active
    }
}

} // verus!
