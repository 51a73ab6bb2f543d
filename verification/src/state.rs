//! The per-connection state machine: whether a logical connection is outside
//! a transaction, inside one, or desynchronized after a failed forward, and
//! how each statement kind moves it between those states.

use vstd::prelude::*;
use crate::query::Kind;

verus! {

/// State of one logical connection.
///
/// `Start`: no open transaction; reads may be served locally.
/// `InTransaction`: an open transaction exists on the primary for this
/// session; everything must be forwarded until it closes.
/// `Desynchronized`: the outcome of a forwarded call is unknown; the handle
/// must not guess its remote state and rejects further statements.
#[derive(Clone, Copy, Debug, PartialEq, Eq, Structural)]
pub enum State {
    Start,
    InTransaction,
    Desynchronized,
}

/// Whether a statement may run against the local replica or must be
/// forwarded to the primary.
#[derive(Clone, Copy, Debug, PartialEq, Eq, Structural)]
pub enum Decision {
    LocalOnly,
    MustForward,
}

/// Read-only statements while no transaction is open are local; every other
/// combination must be forwarded.
pub open spec fn decide_spec(state: State, kind: Kind) -> Decision {
    if state == State::Start && kind == Kind::ReadOnly {
        Decision::LocalOnly
    } else {
        Decision::MustForward
    }
}

/// The transition table, applied only after a forwarded call is confirmed
/// successful. `Begin` opens a transaction, `Commit`/`Rollback` close it,
/// a single `Write` from `Start` autocommits, and `Desynchronized` is
/// terminal for the handle.
pub open spec fn step_spec(state: State, kind: Kind) -> State {
    match state {
        State::Start => match kind {
            Kind::Begin => State::InTransaction,
            _ => State::Start,
        },
        State::InTransaction => match kind {
            Kind::Commit => State::Start,
            Kind::Rollback => State::Start,
            _ => State::InTransaction,
        },
        State::Desynchronized => State::Desynchronized,
    }
}

impl State {
    /// Decide whether a statement of the given kind may run locally in this
    /// state.
    pub fn decide(&self, kind: Kind) -> (d: Decision)
        ensures
            d == decide_spec(*self, kind),
    {
        if *self == State::Start && kind == Kind::ReadOnly {
            Decision::LocalOnly
        } else {
            Decision::MustForward
        }
    }

    /// Advance this state after a confirmed successful forward of a
    /// statement of the given kind.
    pub fn step(&mut self, kind: Kind)
        ensures
            *final(self) == step_spec(*old(self), kind),
    {
        *self = match *self {
            State::Start => match kind {
                Kind::Begin => State::InTransaction,
                _ => State::Start,
            },
            State::InTransaction => match kind {
                Kind::Commit => State::Start,
                Kind::Rollback => State::Start,
                _ => State::InTransaction,
            },
            State::Desynchronized => State::Desynchronized,
        }
    }
}

/// The transition table, row by row: exactly the transitions of the design
/// and no others.
pub proof fn lemma_transition_table()
    ensures
        step_spec(State::Start, Kind::Begin) == State::InTransaction,
        step_spec(State::Start, Kind::Write) == State::Start,
        step_spec(State::Start, Kind::ReadOnly) == State::Start,
        step_spec(State::Start, Kind::Commit) == State::Start,
        step_spec(State::Start, Kind::Rollback) == State::Start,
        step_spec(State::InTransaction, Kind::Write) == State::InTransaction,
        step_spec(State::InTransaction, Kind::ReadOnly) == State::InTransaction,
        step_spec(State::InTransaction, Kind::Begin) == State::InTransaction,
        step_spec(State::InTransaction, Kind::Commit) == State::Start,
        step_spec(State::InTransaction, Kind::Rollback) == State::Start,
        forall|k: Kind| step_spec(State::Desynchronized, k) == State::Desynchronized,
{
}

} // verus!
