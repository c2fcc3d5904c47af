//! Whole runs of an enumeration: what a sequence of reports leads to, and
//! what holds of every such sequence.

use vstd::prelude::*;
use crate::enumerate::enumeration_of;
use crate::enumerate::lemma_record_entry;
use crate::enumerate::matching_threads;
use crate::enumerate::staged_threads;
use crate::enumerate::EnumAction;
use crate::enumerate::EnumEvent;
use crate::enumerate::EnumPhase;
use crate::enumerate::EnumeratorState;
use crate::enumerate::ThreadSnapshotEntry;
use crate::handle::Handle;
use crate::status::EnumError;
use crate::status::CAPACITY_CEILING;

verus! {

/// The state that a run of events leads to, taken in order.
pub open spec fn run(state: EnumeratorState, events: Seq<EnumEvent>) -> EnumeratorState
    decreases events.len(),
{
    if events.len() == 0 {
        state
    } else {
        run(state, events.drop_last()).next(events.last())
    }
}

/// How many snapshot handles a run of events acquires: the grants that
/// answer a pending request for one.
pub open spec fn acquisitions(state: EnumeratorState, events: Seq<EnumEvent>) -> nat
    decreases events.len(),
{
    if events.len() == 0 {
        0
    } else {
        let before = run(state, events.drop_last());
        let granted: nat = if before.expects(events.last()) && events.last() is Opened {
            1
        } else {
            0
        };
        acquisitions(state, events.drop_last()) + granted
    }
}

/// How many snapshot handles a run of events releases: the releases that
/// answer a pending request for one.
pub open spec fn releases(state: EnumeratorState, events: Seq<EnumEvent>) -> nat
    decreases events.len(),
{
    if events.len() == 0 {
        0
    } else {
        let before = run(state, events.drop_last());
        let released: nat = if before.expects(events.last()) && events.last() is Closed {
            1
        } else {
            0
        };
        releases(state, events.drop_last()) + released
    }
}

/// How many handles a state holds open: one or none.
pub open spec fn held_count(state: EnumeratorState) -> nat {
    if state.held().is_some() {
        1
    } else {
        0
    }
}

/// The events of a snapshot that is granted under `handle` and read up to the
/// given entries.
pub open spec fn scan_events(handle: Handle, entries: Seq<ThreadSnapshotEntry>) -> Seq<EnumEvent> {
    seq![EnumEvent::Opened(handle)] + entries.map_values(|entry: ThreadSnapshotEntry| EnumEvent::Entry(entry))
}

/// The events of a whole enumeration: the snapshot is granted, hands out the
/// entries, ends on `code`, and is released.
pub open spec fn exchange_events(
    handle: Handle,
    entries: Seq<ThreadSnapshotEntry>,
    code: u32,
) -> Seq<EnumEvent> {
    scan_events(handle, entries).push(EnumEvent::End(code)).push(EnumEvent::Closed)
}

/// After the snapshot is granted and the given entries are read, the
/// enumerator has counted every match and staged the first that fit.
pub proof fn lemma_scan(
    handle: Handle,
    entries: Seq<ThreadSnapshotEntry>,
    process_id: u32,
    capacity: nat,
)
    requires
        capacity <= CAPACITY_CEILING,
    ensures
        run(EnumeratorState::initial(process_id, capacity), scan_events(handle, entries))
            == (EnumeratorState {
            process_id,
            capacity,
            phase: EnumPhase::AwaitEntry(handle),
            matched: staged_threads(entries, process_id, capacity),
            total: matching_threads(entries, process_id).len(),
        }),
    decreases entries.len(),
{
    let start = EnumeratorState::initial(process_id, capacity);
    let events = scan_events(handle, entries);
    if entries.len() == 0 {
        assert(events.drop_last() =~= Seq::<EnumEvent>::empty());
        assert(events.last() == EnumEvent::Opened(handle));
        assert(run(start, events.drop_last()) == start);
        assert(staged_threads(entries, process_id, capacity) =~= Seq::<u32>::empty());
    } else {
        let shorter = entries.drop_last();
        lemma_scan(handle, shorter, process_id, capacity);
        assert(events.drop_last() =~= scan_events(handle, shorter));
        assert(events.last() == EnumEvent::Entry(entries.last()));
        let before = run(start, scan_events(handle, shorter));
        lemma_record_entry(shorter, entries.last(), before);
        assert(shorter.push(entries.last()) =~= entries);
    }
}

/// Driven through a whole exchange with the system, the enumerator ends over
/// and owes exactly the enumeration of the snapshot: the first matches that
/// fit the capacity in snapshot order and the count of all matches if
/// iteration ended on the sentinel, the failure with nothing staged if not.
pub proof fn lemma_enumeration(
    handle: Handle,
    entries: Seq<ThreadSnapshotEntry>,
    code: u32,
    process_id: u32,
    capacity: nat,
)
    requires
        capacity <= CAPACITY_CEILING,
    ensures
        run(
            EnumeratorState::initial(process_id, capacity),
            exchange_events(handle, entries, code),
        ).outcome() == Some(enumeration_of(entries, code, process_id, capacity)),
        run(
            EnumeratorState::initial(process_id, capacity),
            exchange_events(handle, entries, code),
        ).held().is_none(),
{
    let start = EnumeratorState::initial(process_id, capacity);
    let scanned = scan_events(handle, entries);
    let ended = scanned.push(EnumEvent::End(code));
    let events = exchange_events(handle, entries, code);
    lemma_scan(handle, entries, process_id, capacity);
    assert(ended.drop_last() =~= scanned);
    assert(events.drop_last() =~= ended);
    assert(run(start, ended) == run(start, scanned).next(EnumEvent::End(code)));
    assert(run(start, events) == run(start, ended).next(EnumEvent::Closed));
}

/// An enumeration whose snapshot is denied is over at once with that
/// failure: no entry is asked for and there is nothing to release.
pub proof fn lemma_denied_snapshot(process_id: u32, capacity: nat, code: u32)
    requires
        capacity <= CAPACITY_CEILING,
    ensures
        EnumeratorState::initial(process_id, capacity).next(EnumEvent::OpenFailed(code)).outcome()
            == Some(Err::<(Seq<u32>, nat), EnumError>(EnumError::HandleAcquisitionFailed(code))),
        EnumeratorState::initial(process_id, capacity).action_after(EnumEvent::OpenFailed(code))
            == Some(EnumAction::Finish),
        EnumeratorState::initial(process_id, capacity).next(
            EnumEvent::OpenFailed(code),
        ).held().is_none(),
{
}

/// A capacity above the ceiling ends the enumeration before it starts: the
/// first thing said is that it is over, the outcome is the capacity failure,
/// and whatever is reported afterwards, no snapshot is ever acquired or held.
pub proof fn lemma_over_capacity_opens_nothing(
    process_id: u32,
    capacity: nat,
    events: Seq<EnumEvent>,
)
    requires
        capacity > CAPACITY_CEILING,
    ensures
        EnumeratorState::first_action(capacity) == EnumAction::Finish,
        EnumeratorState::initial(process_id, capacity).outcome() == Some(
            Err::<(Seq<u32>, nat), EnumError>(EnumError::CapacityExceeded),
        ),
        run(EnumeratorState::initial(process_id, capacity), events) == EnumeratorState::initial(
            process_id,
            capacity,
        ),
        acquisitions(EnumeratorState::initial(process_id, capacity), events) == 0,
    decreases events.len(),
{
    if events.len() > 0 {
        lemma_over_capacity_opens_nothing(process_id, capacity, events.drop_last());
    }
}

/// Whatever is reported and in whatever order, handles are accounted for:
/// those acquired during a run are those released during it and the one
/// still held. So a run that starts and ends holding none has released every
/// handle it acquired.
pub proof fn lemma_handles_balanced(state: EnumeratorState, events: Seq<EnumEvent>)
    ensures
        held_count(state) + acquisitions(state, events) == releases(state, events) + held_count(
            run(state, events),
        ),
        run(state, events).is_over() ==> run(state, events).held().is_none(),
    decreases events.len(),
{
    if events.len() > 0 {
        lemma_handles_balanced(state, events.drop_last());
    }
}

/// Every state that a run of events reaches from the start of an enumeration
/// is well formed: what is staged never exceeds the capacity, nor the ceiling
/// once the capacity was accepted.
pub proof fn lemma_run_well_formed(process_id: u32, capacity: nat, events: Seq<EnumEvent>)
    ensures
        run(EnumeratorState::initial(process_id, capacity), events).wf(),
        run(EnumeratorState::initial(process_id, capacity), events).outcome().is_some() ==> run(
            EnumeratorState::initial(process_id, capacity),
            events,
        ).is_over(),
        capacity <= CAPACITY_CEILING ==> run(
            EnumeratorState::initial(process_id, capacity),
            events,
        ).matched.len() <= CAPACITY_CEILING,
    decreases events.len(),
{
    if events.len() > 0 {
        lemma_run_well_formed(process_id, capacity, events.drop_last());
    }
}

/// A request to release names the handle that is held, and the enumeration
/// is never over while a handle is held.
pub proof fn lemma_release_names_held(state: EnumeratorState, event: EnumEvent, handle: Handle)
    requires
        state.action_after(event) == Some(EnumAction::Close(handle)),
    ensures
        state.held() == Some(handle),
        state.next(event).held() == Some(handle),
        !state.next(event).is_over(),
{
}

} // verus!
