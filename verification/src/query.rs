//! Guarded queries: one handle acquired for one identifier, one reading
//! taken through it, and the handle released whatever the reading gave.
//!
//! A query of the times of a target reads a `ProcessTimeRecord`; a query of
//! its cycle count reads a `u64`. The protocol is the same for both and for
//! both kinds of target.

pub mod traces;

use vstd::prelude::*;
use crate::handle::Handle;
use crate::handle::TargetKind;
use crate::status::QueryError;

verus! {

/// What a guarded query asks of its driver.
#[derive(Clone, Copy, Debug, PartialEq, Eq, Structural)]
pub enum QueryAction {
    /// Open the target with exactly this access right.
    Open { kind: TargetKind, id: u32, access: u32 },
    /// Take the reading through the handle.
    Read { kind: TargetKind, handle: Handle },
    /// Release the handle.
    Close(Handle),
    /// Nothing more: the outcome is ready.
    Finish,
}

/// What the driver reports back.
#[derive(Debug)]
pub enum QueryEvent<R> {
    /// The target is open.
    Opened(Handle),
    /// No handle was granted; the code was fetched right after the call.
    OpenFailed(u32),
    /// The reading succeeded.
    Read(R),
    /// The reading failed; the code was fetched right after the call.
    ReadFailed(u32),
    /// The handle is released.
    Closed,
}

/// Where a guarded query stands.
#[derive(Debug)]
pub enum QueryPhase<R> {
    /// A handle was asked for.
    AwaitHandle,
    /// The handle is open and the reading was asked for.
    AwaitReading(Handle),
    /// The reading gave the value or the code, and the release of the handle
    /// was asked for.
    AwaitClose(Handle, Result<R, u32>),
    /// Over: no handle was granted.
    Denied(u32),
    /// Over: the reading gave the value or the code and the handle is
    /// released.
    Finished(Result<R, u32>),
}

/// The state of a guarded query.
#[derive(Debug)]
pub struct QueryState<R> {
    pub kind: TargetKind,
    pub id: u32,
    pub phase: QueryPhase<R>,
}

impl<R> QueryState<R> {
    /// The state in which a query starts.
    pub open spec fn initial(kind: TargetKind, id: u32) -> QueryState<R> {
        QueryState { kind, id, phase: QueryPhase::AwaitHandle }
    }

    /// The first request of a query.
    pub open spec fn first_action(kind: TargetKind, id: u32) -> QueryAction {
        QueryAction::Open { kind, id, access: kind.access_spec() }
    }

    /// Whether the event answers the request that is pending.
    pub open spec fn expects(self, event: QueryEvent<R>) -> bool {
        match (self.phase, event) {
            (QueryPhase::AwaitHandle, QueryEvent::Opened(_)) => true,
            (QueryPhase::AwaitHandle, QueryEvent::OpenFailed(_)) => true,
            (QueryPhase::AwaitReading(_), QueryEvent::Read(_)) => true,
            (QueryPhase::AwaitReading(_), QueryEvent::ReadFailed(_)) => true,
            (QueryPhase::AwaitClose(_, _), QueryEvent::Closed) => true,
            _ => false,
        }
    }

    /// The state after an event. An event that answers no pending request
    /// changes nothing.
    pub open spec fn next(self, event: QueryEvent<R>) -> QueryState<R> {
        match (self.phase, event) {
            (QueryPhase::AwaitHandle, QueryEvent::Opened(handle)) => QueryState {
                phase: QueryPhase::AwaitReading(handle),
                ..self
            },
            (QueryPhase::AwaitHandle, QueryEvent::OpenFailed(code)) => QueryState {
                phase: QueryPhase::Denied(code),
                ..self
            },
            (QueryPhase::AwaitReading(handle), QueryEvent::Read(reading)) => QueryState {
                phase: QueryPhase::AwaitClose(handle, Ok(reading)),
                ..self
            },
            (QueryPhase::AwaitReading(handle), QueryEvent::ReadFailed(code)) => QueryState {
                phase: QueryPhase::AwaitClose(handle, Err(code)),
                ..self
            },
            (QueryPhase::AwaitClose(_, answer), QueryEvent::Closed) => QueryState {
                phase: QueryPhase::Finished(answer),
                ..self
            },
            _ => self,
        }
    }

    /// The request that follows an event, if the event was expected.
    pub open spec fn action_after(self, event: QueryEvent<R>) -> Option<QueryAction> {
        match (self.phase, event) {
            (QueryPhase::AwaitHandle, QueryEvent::Opened(handle)) => Some(
                QueryAction::Read { kind: self.kind, handle },
            ),
            (QueryPhase::AwaitHandle, QueryEvent::OpenFailed(_)) => Some(QueryAction::Finish),
            (QueryPhase::AwaitReading(handle), QueryEvent::Read(_)) => Some(
                QueryAction::Close(handle),
            ),
            (QueryPhase::AwaitReading(handle), QueryEvent::ReadFailed(_)) => Some(
                QueryAction::Close(handle),
            ),
            (QueryPhase::AwaitClose(_, _), QueryEvent::Closed) => Some(QueryAction::Finish),
            _ => None,
        }
    }

    /// The handle that is open in this state, if any.
    pub open spec fn held(self) -> Option<Handle> {
        match self.phase {
            QueryPhase::AwaitReading(handle) => Some(handle),
            QueryPhase::AwaitClose(handle, _) => Some(handle),
            _ => None,
        }
    }

    /// Whether the query is over.
    pub open spec fn is_over(self) -> bool {
        self.phase is Denied || self.phase is Finished
    }

    /// The outcome, once the query is over.
    pub open spec fn outcome(self) -> Option<Result<R, QueryError>> {
        match self.phase {
            QueryPhase::Denied(code) => Some(Err(QueryError::HandleAcquisitionFailed(code))),
            QueryPhase::Finished(Ok(reading)) => Some(Ok(reading)),
            QueryPhase::Finished(Err(code)) => Some(Err(QueryError::QueryFailed(code))),
            _ => None,
        }
    }
}

/// What a query owes its caller when the system grants or denies the handle
/// and, if granted, the reading gives `answer`.
pub open spec fn query_of<R>(grant: Result<Handle, u32>, answer: Result<R, u32>) -> Result<
    R,
    QueryError,
> {
    match grant {
        Err(code) => Err(QueryError::HandleAcquisitionFailed(code)),
        Ok(_) => match answer {
            Ok(reading) => Ok(reading),
            Err(code) => Err(QueryError::QueryFailed(code)),
        },
    }
}

/// A guarded query in progress.
pub struct GuardedQuery<R> {
    state: QueryState<R>,
}

impl<R> View for GuardedQuery<R> {
    type V = QueryState<R>;

    closed spec fn view(&self) -> QueryState<R> {
        self.state
    }
}

impl<R> GuardedQuery<R> {
    /// Starts a query on the target `id` of the given kind, asking for the
    /// least access that a query needs.
    pub fn begin(kind: TargetKind, id: u32) -> (started: (GuardedQuery<R>, QueryAction))
        ensures
            started.0@ == QueryState::<R>::initial(kind, id),
            started.1 == QueryState::<R>::first_action(kind, id),
    {
        (
            GuardedQuery { state: QueryState { kind, id, phase: QueryPhase::AwaitHandle } },
            QueryAction::Open { kind, id, access: kind.access() },
        )
    }

    /// Whether the query is over and its outcome can be taken.
    pub fn is_over(&self) -> (over: bool)
        ensures
            over == self@.is_over(),
    {
        match self.state.phase {
            QueryPhase::Denied(_) => true,
            QueryPhase::Finished(_) => true,
            _ => false,
        }
    }

    /// Takes in what the driver reports and says what to ask next. A failed
    /// reading still has the handle released before the query is over.
    pub fn step(self, event: QueryEvent<R>) -> (stepped: (GuardedQuery<R>, Option<QueryAction>))
        ensures
            stepped.0@ == self@.next(event),
            stepped.1 == self@.action_after(event),
            stepped.1.is_some() <==> self@.expects(event),
    {
        let kind = self.state.kind;
        let id = self.state.id;
        match (self.state.phase, event) {
            (QueryPhase::AwaitHandle, QueryEvent::Opened(handle)) => (
                GuardedQuery { state: QueryState { kind, id, phase: QueryPhase::AwaitReading(handle) } },
                Some(QueryAction::Read { kind, handle }),
            ),
            (QueryPhase::AwaitHandle, QueryEvent::OpenFailed(code)) => (
                GuardedQuery { state: QueryState { kind, id, phase: QueryPhase::Denied(code) } },
                Some(QueryAction::Finish),
            ),
            (QueryPhase::AwaitReading(handle), QueryEvent::Read(reading)) => (
                GuardedQuery {
                    state: QueryState { kind, id, phase: QueryPhase::AwaitClose(handle, Ok(reading)) },
                },
                Some(QueryAction::Close(handle)),
            ),
            (QueryPhase::AwaitReading(handle), QueryEvent::ReadFailed(code)) => (
                GuardedQuery {
                    state: QueryState { kind, id, phase: QueryPhase::AwaitClose(handle, Err(code)) },
                },
                Some(QueryAction::Close(handle)),
            ),
            (QueryPhase::AwaitClose(_, answer), QueryEvent::Closed) => (
                GuardedQuery { state: QueryState { kind, id, phase: QueryPhase::Finished(answer) } },
                Some(QueryAction::Finish),
            ),
            (phase, _) => (GuardedQuery { state: QueryState { kind, id, phase } }, None),
        }
    }

    /// Ends the query and hands out its outcome; there is none while a
    /// request is pending.
    pub fn finish(self) -> (outcome: Option<Result<R, QueryError>>)
        ensures
            outcome == self@.outcome(),
            outcome.is_some() <==> self@.is_over(),
    {
        match self.state.phase {
            QueryPhase::Denied(code) => Some(Err(QueryError::HandleAcquisitionFailed(code))),
            QueryPhase::Finished(Ok(reading)) => Some(Ok(reading)),
            QueryPhase::Finished(Err(code)) => Some(Err(QueryError::QueryFailed(code))),
            _ => None,
        }
    }
}

} // verus!
