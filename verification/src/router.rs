//! The write-proxy router: one logical connection handle owning a connection
//! state and a session identity. It decides per statement whether to execute
//! against the local replica or forward to the primary, advances its state
//! only on a confirmed successful forward, and becomes desynchronized when a
//! forward's outcome is unknown.
//!
//! The network call itself cannot be made here; the surrounding program asks
//! [`WriteProxyDatabase::plan`] what to do with a statement, performs the
//! local read or the forward, and hands a forward's outcome back through
//! [`WriteProxyDatabase::apply_outcome`].

use vstd::prelude::*;
use crate::query::{ErrorCode, Kind, QueryError, QueryResponse, QueryResult};
use crate::session::mint_session_id;
use crate::state::{decide_spec, step_spec, Decision, State};

verus! {

/// What the router decided to do with one statement.
pub enum RoutePlan {
    /// Execute against the local read-only replica; the primary is not
    /// contacted and the connection state does not change.
    Local,
    /// Forward to the primary, carrying this handle's session identifier.
    Forward(u128),
    /// Reject without contacting anything: the handle is desynchronized.
    Reject(QueryError),
}

/// The outcome of one forwarded call, as observed on the wire.
pub enum ForwardOutcome {
    /// The primary confirmed the statement and returned a result set.
    Rows(QueryResponse),
    /// The primary reported a SQL-level failure; its session and any open
    /// transaction context survive.
    SqlError(QueryError),
    /// The call did not complete; the primary's state for this session is
    /// unknown.
    TransportError(String),
}

/// A connection handle of the write proxy: routes statements for one
/// logical connection.
pub struct WriteProxyDatabase {
    /// Connection state, mutated only by confirmed outcomes.
    pub state: State,
    /// Session identity, fixed for the life of the handle.
    pub client_id: u128,
    /// Whether the handle was already torn down.
    pub closed: bool,
}

impl WriteProxyDatabase {
    /// Create a handle with a freshly minted session identity, outside any
    /// transaction.
    pub fn new() -> (db: WriteProxyDatabase)
        ensures
            db.state == State::Start,
            !db.closed,
    {
        WriteProxyDatabase { state: State::Start, client_id: mint_session_id(), closed: false }
    }

    /// Decide what to do with a statement of the given kind: read-only while
    /// `Start` runs locally, a desynchronized handle rejects with a typed
    /// error, everything else is forwarded under this handle's session id.
    pub fn plan(&self, kind: Kind) -> (r: RoutePlan)
        ensures
            self.state == State::Desynchronized ==> (r matches RoutePlan::Reject(e)
                && e.code == ErrorCode::StateError),
            self.state != State::Desynchronized && decide_spec(self.state, kind)
                == Decision::LocalOnly ==> r matches RoutePlan::Local,
            self.state != State::Desynchronized && decide_spec(self.state, kind)
                == Decision::MustForward ==> (r matches RoutePlan::Forward(sid) && sid
                == self.client_id),
            (r is Local) == (route_spec(self.state, kind) == RouteKind::Local),
            (r is Forward) == (route_spec(self.state, kind) == RouteKind::Forward),
            (r is Reject) == (route_spec(self.state, kind) == RouteKind::Reject),
    {
        match self.state {
            State::Desynchronized => RoutePlan::Reject(
                QueryError {
                    code: ErrorCode::StateError,
                    message: String::from_str(
                        "connection is desynchronized; discard this handle and reconnect",
                    ),
                },
            ),
            _ => {
                if self.state.decide(kind) == Decision::LocalOnly {
                    RoutePlan::Local
                } else {
                    RoutePlan::Forward(self.client_id)
                }
            },
        }
    }

    /// Record the outcome of a forwarded statement. Only a confirmed success
    /// advances the state; a SQL-level error leaves it untouched; an unknown
    /// outcome moves the handle to `Desynchronized`. The session identity
    /// never changes.
    pub fn apply_outcome(&mut self, kind: Kind, outcome: ForwardOutcome) -> (r: QueryResult)
        requires
            old(self).state != State::Desynchronized,
        ensures
            final(self).client_id == old(self).client_id,
            final(self).closed == old(self).closed,
            outcome matches ForwardOutcome::Rows(rows) ==> final(self).state == step_spec(
                old(self).state,
                kind,
            ) && r == QueryResult::Ok(rows),
            outcome matches ForwardOutcome::SqlError(e) ==> final(self).state == old(self).state
                && r == QueryResult::Err(e),
            outcome matches ForwardOutcome::TransportError(m) ==> final(self).state
                == State::Desynchronized && (r matches Err(e) && e.code == ErrorCode::ConnectionError
                && e.message == m),
    {
        match outcome {
            ForwardOutcome::Rows(rows) => {
                self.state.step(kind);
                Ok(rows)
            },
            ForwardOutcome::SqlError(e) => Err(e),
            ForwardOutcome::TransportError(m) => {
                self.state = State::Desynchronized;
                Err(QueryError { code: ErrorCode::ConnectionError, message: m })
            },
        }
    }

    /// Tear the handle down, yielding the disconnect notification to send:
    /// the handle's own session id, and only on the first teardown.
    pub fn teardown(&mut self) -> (r: Option<u128>)
        ensures
            final(self).client_id == old(self).client_id,
            final(self).state == old(self).state,
            final(self).closed,
            old(self).closed ==> r is None,
            !old(self).closed ==> r == Some(old(self).client_id),
    {
        if self.closed {
            None
        } else {
            self.closed = true;
            Some(self.client_id)
        }
    }
}

/// Classification of a routing decision, for reasoning about whole traces.
#[derive(Clone, Copy, Debug, PartialEq, Eq, Structural)]
pub enum RouteKind {
    Local,
    Forward,
    Reject,
}

/// Classification of a forwarded call's outcome, for reasoning about whole
/// traces.
#[derive(Clone, Copy, Debug, PartialEq, Eq, Structural)]
pub enum OutcomeKind {
    Success,
    SqlFailure,
    TransportFailure,
}

/// How a statement of the given kind is routed in the given state: the
/// abstract face of [`WriteProxyDatabase::plan`].
pub open spec fn route_spec(state: State, kind: Kind) -> RouteKind {
    if state == State::Desynchronized {
        RouteKind::Reject
    } else if decide_spec(state, kind) == Decision::LocalOnly {
        RouteKind::Local
    } else {
        RouteKind::Forward
    }
}

/// The state after one statement with the given outcome: the abstract face
/// of [`WriteProxyDatabase::apply_outcome`]. Local and rejected statements
/// never change the state; only a confirmed forward advances it, and an
/// unknown outcome desynchronizes the handle.
pub open spec fn next_state_spec(state: State, kind: Kind, outcome: OutcomeKind) -> State {
    match route_spec(state, kind) {
        RouteKind::Local => state,
        RouteKind::Reject => state,
        RouteKind::Forward => match outcome {
            OutcomeKind::Success => step_spec(state, kind),
            OutcomeKind::SqlFailure => state,
            OutcomeKind::TransportFailure => State::Desynchronized,
        },
    }
}

/// The state after a whole trace of statements and outcomes.
pub open spec fn run_trace(state: State, trace: Seq<(Kind, OutcomeKind)>) -> State
    decreases trace.len(),
{
    if trace.len() == 0 {
        state
    } else {
        next_state_spec(run_trace(state, trace.drop_last()), trace.last().0, trace.last().1)
    }
}

/// A sequence of only read-only statements issued from `Start` is served
/// locally in its entirety: every decision along the trace is `Local`, so
/// the primary is never contacted, and the state remains `Start`.
pub proof fn lemma_reads_from_start_stay_local(trace: Seq<(Kind, OutcomeKind)>)
    requires
        forall|i: int| 0 <= i < trace.len() ==> (#[trigger] trace[i]).0 == Kind::ReadOnly,
    ensures
        run_trace(State::Start, trace) == State::Start,
        forall|i: int|
            0 <= i < trace.len() ==> route_spec(
                run_trace(State::Start, trace.take(i)),
                (#[trigger] trace[i]).0,
            ) == RouteKind::Local,
    decreases trace.len(),
{
    if trace.len() > 0 {
        lemma_reads_from_start_stay_local(trace.drop_last());
        assert forall|i: int| 0 <= i < trace.len() implies route_spec(
            run_trace(State::Start, trace.take(i)),
            (#[trigger] trace[i]).0,
        ) == RouteKind::Local by {
            assert(trace.take(i) =~= trace.drop_last().take(i));
            if i < trace.len() - 1 {
                assert(trace.drop_last()[i] == trace[i]);
            }
        }
        assert(trace.take(trace.len() - 1) =~= trace.drop_last());
    }
}

/// Any statement that is not a local read — a non-read kind, or any kind
/// while a transaction is open — is forwarded, under the handle's session
/// id, as long as the handle is not desynchronized.
pub proof fn lemma_non_reads_forward(state: State, kind: Kind)
    requires
        state != State::Desynchronized,
        kind != Kind::ReadOnly || state != State::Start,
    ensures
        route_spec(state, kind) == RouteKind::Forward,
{
}

/// The state never advances on a failed forward: a SQL-level failure leaves
/// it exactly where it was, and a transport failure moves it to
/// `Desynchronized` and nowhere else.
pub proof fn lemma_no_advance_on_failure(state: State, kind: Kind)
    ensures
        next_state_spec(state, kind, OutcomeKind::SqlFailure) == state,
        route_spec(state, kind) == RouteKind::Forward ==> next_state_spec(
            state,
            kind,
            OutcomeKind::TransportFailure,
        ) == State::Desynchronized,
        route_spec(state, kind) != RouteKind::Forward ==> next_state_spec(
            state,
            kind,
            OutcomeKind::TransportFailure,
        ) == state,
{
}

/// `Desynchronized` is terminal: whatever trace follows, the handle stays
/// desynchronized and every further statement is rejected without being
/// forwarded.
pub proof fn lemma_desynchronized_is_terminal(trace: Seq<(Kind, OutcomeKind)>)
    ensures
        run_trace(State::Desynchronized, trace) == State::Desynchronized,
        forall|i: int|
            0 <= i < trace.len() ==> route_spec(
                run_trace(State::Desynchronized, trace.take(i)),
                (#[trigger] trace[i]).0,
            ) == RouteKind::Reject,
    decreases trace.len(),
{
    if trace.len() > 0 {
        lemma_desynchronized_is_terminal(trace.drop_last());
        assert forall|i: int| 0 <= i < trace.len() implies route_spec(
            run_trace(State::Desynchronized, trace.take(i)),
            (#[trigger] trace[i]).0,
        ) == RouteKind::Reject by {
            assert(trace.take(i) =~= trace.drop_last().take(i));
            if i < trace.len() - 1 {
                assert(trace.drop_last()[i] == trace[i]);
            }
        }
        assert(trace.take(trace.len() - 1) =~= trace.drop_last());
    }
}

} // verus!
