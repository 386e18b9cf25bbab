//! Engine-state lifecycle tag: the coarse phase the host engine drives the
//! node through, carried on the wire as a dense u32 code.

use vstd::prelude::*;

verus! {

/// Lifecycle phase of the node, as the host engine progresses it.
#[derive(Debug, Clone, Copy, PartialEq, Eq, Structural)]
pub enum State {
    Initializing,
    StateSyncing,
    Bootstrapping,
    NormalOp,
}

/// The dense code under which an engine state travels on the wire.
pub open spec fn state_code(s: State) -> u32 {
    match s {
        State::Initializing => 0u32,
        State::StateSyncing => 1u32,
        State::Bootstrapping => 2u32,
        State::NormalOp => 3u32,
    }
}

/// The engine state a wire code denotes, if any.
pub open spec fn state_from_code(code: u32) -> Option<State> {
    if code == 0 {
        Some(State::Initializing)
    } else if code == 1 {
        Some(State::StateSyncing)
    } else if code == 2 {
        Some(State::Bootstrapping)
    } else if code == 3 {
        Some(State::NormalOp)
    } else {
        None
    }
}

impl State {
    /// The state's display name.
    pub fn as_str(&self) -> (r: &'static str)
        ensures
            *self == State::Initializing ==> r@ == "Initializing state"@,
            *self == State::StateSyncing ==> r@ == "State syncing state"@,
            *self == State::Bootstrapping ==> r@ == "Bootstrapping state"@,
            *self == State::NormalOp ==> r@ == "Normal operations state"@,
    {
        match self {
            State::Initializing => "Initializing state",
            State::StateSyncing => "State syncing state",
            State::Bootstrapping => "Bootstrapping state",
            State::NormalOp => "Normal operations state",
        }
    }

    /// Serializes the state as its wire code.
    pub fn to_u32(&self) -> (r: u32)
        ensures
            r == state_code(*self),
    {
        match self {
            State::Initializing => 0,
            State::StateSyncing => 1,
            State::Bootstrapping => 2,
            State::NormalOp => 3,
        }
    }

    /// Decodes a wire code; fails exactly on codes that denote no state.
    pub fn try_from(code: u32) -> (r: Result<State, ()>)
        ensures
            r is Ok <==> state_from_code(code) is Some,
            r matches Ok(s) ==> state_from_code(code) == Some(s) && state_code(s) == code,
    {
        if code == 0 {
            Ok(State::Initializing)
        } else if code == 1 {
            Ok(State::StateSyncing)
        } else if code == 2 {
            Ok(State::Bootstrapping)
        } else if code == 3 {
            Ok(State::NormalOp)
        } else {
            Err(())
        }
    }
}

/// The u32 codes and the engine states round-trip: every code at most 3
/// decodes to the state that encodes back to it, every higher code is
/// refused, and decoding inverts encoding on every state.
pub proof fn lemma_engine_state_round_trip(code: u32, s: State)
    ensures
        code <= 3 ==> (state_from_code(code) matches Some(d) && state_code(d) == code),
        code > 3 ==> state_from_code(code) is None,
        state_from_code(state_code(s)) == Some(s),
{
}

} // verus!
