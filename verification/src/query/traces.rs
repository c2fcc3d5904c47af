//! Whole runs of a guarded query: what a sequence of reports leads to, and
//! what holds of every such sequence.

use vstd::prelude::*;
use crate::handle::Handle;
use crate::handle::TargetKind;
use crate::query::query_of;
use crate::query::QueryAction;
use crate::query::QueryEvent;
use crate::query::QueryState;

verus! {

/// The state that a run of events leads to, taken in order.
pub open spec fn run<R>(state: QueryState<R>, events: Seq<QueryEvent<R>>) -> QueryState<R>
    decreases events.len(),
{
    if events.len() == 0 {
        state
    } else {
        run(state, events.drop_last()).next(events.last())
    }
}

/// How many handles a run of events acquires: the grants that answer a
/// pending request for one.
pub open spec fn acquisitions<R>(state: QueryState<R>, events: Seq<QueryEvent<R>>) -> nat
    decreases events.len(),
{
    if events.len() == 0 {
        0
    } else {
        let before = run(state, events.drop_last());
        let granted: nat = if before.expects(events.last()) && events.last() is Opened {
            1
        } else {
            0
        };
        acquisitions(state, events.drop_last()) + granted
    }
}

/// How many handles a run of events releases: the releases that answer a
/// pending request for one.
pub open spec fn releases<R>(state: QueryState<R>, events: Seq<QueryEvent<R>>) -> nat
    decreases events.len(),
{
    if events.len() == 0 {
        0
    } else {
        let before = run(state, events.drop_last());
        let released: nat = if before.expects(events.last()) && events.last() is Closed {
            1
        } else {
            0
        };
        releases(state, events.drop_last()) + released
    }
}

/// How many handles a state holds open: one or none.
pub open spec fn held_count<R>(state: QueryState<R>) -> nat {
    if state.held().is_some() {
        1
    } else {
        0
    }
}

/// The events of a query whose handle is granted: the reading gives a value
/// or a code, and the handle is released.
pub open spec fn granted_events<R>(handle: Handle, answer: Result<R, u32>) -> Seq<QueryEvent<R>> {
    seq![
        QueryEvent::Opened(handle),
        match answer {
            Ok(reading) => QueryEvent::Read(reading),
            Err(code) => QueryEvent::ReadFailed(code),
        },
        QueryEvent::Closed,
    ]
}

/// A query whose handle is granted ends over with the reading, or with the
/// failure of the reading, and in both cases the one handle that was acquired
/// has been released.
pub proof fn lemma_granted_query<R>(
    kind: TargetKind,
    id: u32,
    handle: Handle,
    answer: Result<R, u32>,
)
    ensures
        run(QueryState::initial(kind, id), granted_events(handle, answer)).outcome() == Some(
            query_of(Ok(handle), answer),
        ),
        run(QueryState::initial(kind, id), granted_events(handle, answer)).held().is_none(),
        acquisitions(QueryState::initial(kind, id), granted_events(handle, answer)) == 1,
        releases(QueryState::initial(kind, id), granted_events(handle, answer)) == 1,
{
    let start = QueryState::<R>::initial(kind, id);
    let events = granted_events(handle, answer);
    let two = events.take(2);
    let one = events.take(1);
    assert(events.drop_last() =~= two);
    assert(two.drop_last() =~= one);
    assert(one.drop_last() =~= Seq::<QueryEvent<R>>::empty());
    assert(run(start, one.drop_last()) == start);
    assert(run(start, one) == start.next(events[0]));
    assert(run(start, two) == run(start, one).next(events[1]));
    assert(run(start, events) == run(start, two).next(events[2]));
    assert(releases(start, one.drop_last()) == 0);
    assert(releases(start, one) == 0);
    assert(releases(start, two) == 0);
    lemma_handles_balanced(start, events);
}

/// A query whose handle is denied is over at once with that failure: no
/// reading is asked for and there is nothing to release.
pub proof fn lemma_denied_query<R>(kind: TargetKind, id: u32, code: u32, answer: Result<R, u32>)
    ensures
        QueryState::<R>::initial(kind, id).next(QueryEvent::OpenFailed(code)).outcome() == Some(
            query_of(Err(code), answer),
        ),
        QueryState::<R>::initial(kind, id).action_after(QueryEvent::OpenFailed(code)) == Some(
            QueryAction::Finish,
        ),
        QueryState::<R>::initial(kind, id).next(QueryEvent::OpenFailed(code)).held().is_none(),
{
}

/// Whatever is reported and in whatever order, handles are accounted for:
/// those acquired during a run are those released during it and the one
/// still held. So a run that starts and ends holding none has released every
/// handle it acquired.
pub proof fn lemma_handles_balanced<R>(state: QueryState<R>, events: Seq<QueryEvent<R>>)
    ensures
        held_count(state) + acquisitions(state, events) == releases(state, events) + held_count(
            run(state, events),
        ),
        run(state, events).is_over() ==> run(state, events).held().is_none(),
    decreases events.len(),
{
    if events.len() > 0 {
        lemma_handles_balanced(state, events.drop_last());
    }
}

/// A request to release names the handle that is held, and the query is
/// never over while a handle is held.
pub proof fn lemma_release_names_held<R>(state: QueryState<R>, event: QueryEvent<R>, handle: Handle)
    requires
        state.action_after(event) == Some(QueryAction::Close(handle)),
    ensures
        state.held() == Some(handle),
        state.next(event).held() == Some(handle),
        !state.next(event).is_over(),
{
}

} // verus!
