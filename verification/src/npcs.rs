//! Non-player characters. They are present in the server's tables and do
//! nothing yet.

use std::time::Instant;
use vstd::prelude::*;
use vstd::string::*;

verus! {

/// `std::time::Instant`: a reading of the monotonic clock, carried as it is.
#[verifier::external_type_specification]
#[verifier::external_body]
pub struct ExInstant(Instant);

/// `Instant::now` reads the monotonic clock. Nothing is claimed of the
/// reading.
pub assume_specification[ Instant::now ]() -> (now: Instant);

/// Whether a non-player character takes part.
#[derive(Debug, Clone, Copy, PartialEq, Eq, Structural)]
pub enum NpcState {
    Idle,
    Disabled,
}

impl Default for NpcState {
    fn default() -> (state: Self)
        ensures
            state == NpcState::Idle,
    {
        NpcState::Idle
    }
}

/// A non-player character: its name, its state and when it last acted.
#[derive(Debug)]
pub struct Npc {
    name: String,
    state: NpcState,
    last_active: Instant,
}

impl Npc {
    /// The character's name.
    pub closed spec fn name(&self) -> Seq<char> {
        self.name@
    }

    /// The character's state.
    pub closed spec fn state(&self) -> NpcState {
        self.state
    }
}

impl Default for Npc {
    /// An idle character called `Unnamed`, last active now.
    fn default() -> (npc: Self)
        ensures
            npc.name() == "Unnamed"@,
            npc.state() == NpcState::Idle,
    {
        Npc { name: String::from_str("Unnamed"), state: NpcState::Idle, last_active: Instant::now() }
    }
}

} // verus!
