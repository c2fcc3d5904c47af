//! Thread enumeration: one system-wide snapshot filtered down to the threads
//! of one process, under the capacity that the caller declared.
//!
//! The snapshot itself is the system's. The enumerator decides what to ask of
//! it next and what to make of each answer; whoever drives it performs the
//! request and reports what came back.

pub mod traces;

use vstd::prelude::*;
use crate::handle::Handle;
use crate::status::EnumError;
use crate::status::CAPACITY_CEILING;
use crate::status::END_OF_SEQUENCE;

verus! {

/// One entry of a thread snapshot. Only the thread and its owner matter to
/// the enumeration; the priorities are carried because the system hands them
/// out with every entry.
#[derive(Clone, Copy, Debug, PartialEq, Eq, Structural)]
pub struct ThreadSnapshotEntry {
    pub thread_id: u32,
    pub owner_process_id: u32,
    pub base_priority: u32,
    pub delta_priority: u32,
}

/// The ids of the threads that belong to `process_id`, in snapshot order.
pub open spec fn matching_threads(entries: Seq<ThreadSnapshotEntry>, process_id: u32) -> Seq<u32>
    decreases entries.len(),
{
    if entries.len() == 0 {
        Seq::empty()
    } else {
        let earlier = matching_threads(entries.drop_last(), process_id);
        if entries.last().owner_process_id == process_id {
            earlier.push(entries.last().thread_id)
        } else {
            earlier
        }
    }
}

/// The matching ids that fit the capacity: the first `capacity` of them.
pub open spec fn staged_threads(
    entries: Seq<ThreadSnapshotEntry>,
    process_id: u32,
    capacity: nat,
) -> Seq<u32> {
    let all = matching_threads(entries, process_id);
    if all.len() <= capacity {
        all
    } else {
        all.take(capacity as int)
    }
}

/// What an enumeration owes its caller when the snapshot holds `entries` and
/// ends on `code`.
pub open spec fn enumeration_of(
    entries: Seq<ThreadSnapshotEntry>,
    code: u32,
    process_id: u32,
    capacity: nat,
) -> EnumOutcome {
    if capacity > CAPACITY_CEILING {
        Err(EnumError::CapacityExceeded)
    } else if code != END_OF_SEQUENCE {
        Err(EnumError::EnumerationFailed(code))
    } else {
        Ok((staged_threads(entries, process_id, capacity), matching_threads(entries, process_id).len()))
    }
}

/// Where an enumeration stands.
#[derive(Clone, Copy, Debug, PartialEq, Eq, Structural)]
pub enum EnumPhase {
    /// A snapshot was asked for.
    AwaitSnapshot,
    /// The snapshot is open and its next entry was asked for.
    AwaitEntry(Handle),
    /// Iteration ended on the given code and the release of the snapshot was
    /// asked for.
    AwaitClose(Handle, u32),
    /// Over: the capacity was above the ceiling, nothing was opened.
    Rejected,
    /// Over: no snapshot was granted.
    Denied(u32),
    /// Over: iteration ended on the given code and the snapshot is released.
    Finished(u32),
}

/// What the enumerator asks of its driver.
#[derive(Clone, Copy, Debug, PartialEq, Eq, Structural)]
pub enum EnumAction {
    /// Open a snapshot of all threads of the system.
    OpenSnapshot,
    /// Read the first entry of the snapshot.
    First(Handle),
    /// Read the entry after the last one read.
    Next(Handle),
    /// Release the snapshot.
    Close(Handle),
    /// Nothing more: the outcome is ready.
    Finish,
}

/// What the driver reports back.
#[derive(Clone, Copy, Debug, PartialEq, Eq, Structural)]
pub enum EnumEvent {
    /// The snapshot is open.
    Opened(Handle),
    /// No snapshot was granted; the code was fetched right after the call.
    OpenFailed(u32),
    /// An entry was read.
    Entry(ThreadSnapshotEntry),
    /// No entry was read; the code was fetched right after the call.
    End(u32),
    /// The snapshot is released.
    Closed,
}

/// The listing that a successful enumeration produces.
#[derive(Debug)]
pub struct Enumeration {
    /// The matching thread ids that fit the capacity, in snapshot order.
    pub matched: Vec<u32>,
    /// How many threads matched, whether staged or not.
    pub total: usize,
}

/// The outcome of an enumeration over mathematical values: the staged ids
/// and the total count, or the failure.
pub type EnumOutcome = Result<(Seq<u32>, nat), EnumError>;

/// The mathematical reading of an outcome.
pub open spec fn outcome_view(outcome: Result<Enumeration, EnumError>) -> EnumOutcome {
    match outcome {
        Ok(listing) => Ok((listing.matched@, listing.total as nat)),
        Err(error) => Err(error),
    }
}

/// The state of an enumeration as mathematical values.
pub struct EnumeratorState {
    pub process_id: u32,
    pub capacity: nat,
    pub phase: EnumPhase,
    pub matched: Seq<u32>,
    pub total: nat,
}

impl EnumeratorState {
    /// The state in which an enumeration starts.
    pub open spec fn initial(process_id: u32, capacity: nat) -> EnumeratorState {
        EnumeratorState {
            process_id,
            capacity,
            phase: if capacity > CAPACITY_CEILING {
                EnumPhase::Rejected
            } else {
                EnumPhase::AwaitSnapshot
            },
            matched: Seq::empty(),
            total: 0,
        }
    }

    /// The first request of an enumeration.
    pub open spec fn first_action(capacity: nat) -> EnumAction {
        if capacity > CAPACITY_CEILING {
            EnumAction::Finish
        } else {
            EnumAction::OpenSnapshot
        }
    }

    /// Whether the event answers the request that is pending.
    pub open spec fn expects(self, event: EnumEvent) -> bool {
        match (self.phase, event) {
            (EnumPhase::AwaitSnapshot, EnumEvent::Opened(_)) => true,
            (EnumPhase::AwaitSnapshot, EnumEvent::OpenFailed(_)) => true,
            (EnumPhase::AwaitEntry(_), EnumEvent::Entry(_)) => true,
            (EnumPhase::AwaitEntry(_), EnumEvent::End(_)) => true,
            (EnumPhase::AwaitClose(_, _), EnumEvent::Closed) => true,
            _ => false,
        }
    }

    /// The state after an entry was read: a match is counted, and staged
    /// while there is room.
    pub open spec fn record(self, entry: ThreadSnapshotEntry) -> EnumeratorState {
        if entry.owner_process_id == self.process_id {
            EnumeratorState {
                matched: if self.matched.len() < self.capacity {
                    self.matched.push(entry.thread_id)
                } else {
                    self.matched
                },
                total: self.total + 1,
                ..self
            }
        } else {
            self
        }
    }

    /// The state after an event. An event that answers no pending request
    /// changes nothing.
    pub open spec fn next(self, event: EnumEvent) -> EnumeratorState {
        match (self.phase, event) {
            (EnumPhase::AwaitSnapshot, EnumEvent::Opened(handle)) => EnumeratorState {
                phase: EnumPhase::AwaitEntry(handle),
                ..self
            },
            (EnumPhase::AwaitSnapshot, EnumEvent::OpenFailed(code)) => EnumeratorState {
                phase: EnumPhase::Denied(code),
                ..self
            },
            (EnumPhase::AwaitEntry(_), EnumEvent::Entry(entry)) => self.record(entry),
            (EnumPhase::AwaitEntry(handle), EnumEvent::End(code)) => EnumeratorState {
                phase: EnumPhase::AwaitClose(handle, code),
                ..self
            },
            (EnumPhase::AwaitClose(_, code), EnumEvent::Closed) => EnumeratorState {
                phase: EnumPhase::Finished(code),
                ..self
            },
            _ => self,
        }
    }

    /// The request that follows an event, if the event was expected.
    pub open spec fn action_after(self, event: EnumEvent) -> Option<EnumAction> {
        match (self.phase, event) {
            (EnumPhase::AwaitSnapshot, EnumEvent::Opened(handle)) => Some(EnumAction::First(handle)),
            (EnumPhase::AwaitSnapshot, EnumEvent::OpenFailed(_)) => Some(EnumAction::Finish),
            (EnumPhase::AwaitEntry(handle), EnumEvent::Entry(_)) => Some(EnumAction::Next(handle)),
            (EnumPhase::AwaitEntry(handle), EnumEvent::End(_)) => Some(EnumAction::Close(handle)),
            (EnumPhase::AwaitClose(_, _), EnumEvent::Closed) => Some(EnumAction::Finish),
            _ => None,
        }
    }

    /// What holds of every state that an enumeration reaches: unless the
    /// capacity was refused it is within the ceiling, and the staged ids are
    /// as many as were counted, up to the capacity.
    pub open spec fn wf(self) -> bool {
        &&& self.capacity > CAPACITY_CEILING <==> self.phase is Rejected
        &&& self.matched.len() <= self.capacity
        &&& self.matched.len() <= self.total
        &&& self.matched.len() < self.capacity ==> self.matched.len() == self.total
    }

    /// The snapshot handle that is open in this state, if any.
    pub open spec fn held(self) -> Option<Handle> {
        match self.phase {
            EnumPhase::AwaitEntry(handle) => Some(handle),
            EnumPhase::AwaitClose(handle, _) => Some(handle),
            _ => None,
        }
    }

    /// Whether the enumeration is over.
    pub open spec fn is_over(self) -> bool {
        self.phase is Rejected || self.phase is Denied || self.phase is Finished
    }

    /// The outcome, once the enumeration is over. Matches staged before a
    /// failure are not part of it.
    pub open spec fn outcome(self) -> Option<EnumOutcome> {
        match self.phase {
            EnumPhase::Rejected => Some(Err(EnumError::CapacityExceeded)),
            EnumPhase::Denied(code) => Some(Err(EnumError::HandleAcquisitionFailed(code))),
            EnumPhase::Finished(code) => if code == END_OF_SEQUENCE {
                Some(Ok((self.matched, self.total)))
            } else {
                Some(Err(EnumError::EnumerationFailed(code)))
            },
            _ => None,
        }
    }
}

/// Takes one entry into the staging: a match is staged while there is room,
/// and counted in any case. Returns the new count.
fn tally(
    process_id: u32,
    capacity: usize,
    matched: &mut Vec<u32>,
    total: usize,
    entry: &ThreadSnapshotEntry,
) -> (counted: usize)
    requires
        total < usize::MAX,
    ensures
        counted == if entry.owner_process_id == process_id {
            total + 1
        } else {
            total as int
        },
        final(matched)@ == if entry.owner_process_id == process_id && old(matched)@.len()
            < capacity {
            old(matched)@.push(entry.thread_id)
        } else {
            old(matched)@
        },
{
    if entry.owner_process_id == process_id {
        if matched.len() < capacity {
            matched.push(entry.thread_id);
        }
        total + 1
    } else {
        total
    }
}

/// An enumeration in progress.
pub struct ThreadEnumerator {
    process_id: u32,
    capacity: usize,
    phase: EnumPhase,
    matched: Vec<u32>,
    total: usize,
}

impl View for ThreadEnumerator {
    type V = EnumeratorState;

    closed spec fn view(&self) -> EnumeratorState {
        EnumeratorState {
            process_id: self.process_id,
            capacity: self.capacity as nat,
            phase: self.phase,
            matched: self.matched@,
            total: self.total as nat,
        }
    }
}

impl ThreadEnumerator {
    /// Starts an enumeration of the threads of `process_id` for a buffer of
    /// `capacity` slots. A capacity above the ceiling ends it at once, before
    /// anything is asked of the system.
    pub fn begin(process_id: u32, capacity: usize) -> (started: (ThreadEnumerator, EnumAction))
        ensures
            started.0@ == EnumeratorState::initial(process_id, capacity as nat),
            started.1 == EnumeratorState::first_action(capacity as nat),
            started.0@.wf(),
    {
        if capacity > CAPACITY_CEILING {
            (
                ThreadEnumerator {
                    process_id,
                    capacity,
                    phase: EnumPhase::Rejected,
                    matched: Vec::new(),
                    total: 0,
                },
                EnumAction::Finish,
            )
        } else {
            (
                ThreadEnumerator {
                    process_id,
                    capacity,
                    phase: EnumPhase::AwaitSnapshot,
                    matched: Vec::new(),
                    total: 0,
                },
                EnumAction::OpenSnapshot,
            )
        }
    }

    /// How many matches were counted so far.
    pub fn total_matches(&self) -> (total: usize)
        ensures
            total == self@.total,
    {
        self.total
    }

    /// Whether the enumeration is over and its outcome can be taken.
    pub fn is_over(&self) -> (over: bool)
        ensures
            over == self@.is_over(),
    {
        match self.phase {
            EnumPhase::Rejected => true,
            EnumPhase::Denied(_) => true,
            EnumPhase::Finished(_) => true,
            _ => false,
        }
    }

    /// Takes in what the driver reports and says what to ask next. The count
    /// of matches has to stay within the machine's range when one more entry
    /// is reported.
    pub fn step(&mut self, event: EnumEvent) -> (action: Option<EnumAction>)
        requires
            event is Entry ==> old(self)@.total < usize::MAX,
        ensures
            final(self)@ == old(self)@.next(event),
            action == old(self)@.action_after(event),
            action.is_some() <==> old(self)@.expects(event),
            old(self)@.wf() ==> final(self)@.wf(),
    {
        match (self.phase, event) {
            (EnumPhase::AwaitSnapshot, EnumEvent::Opened(handle)) => {
                self.phase = EnumPhase::AwaitEntry(handle);
                Some(EnumAction::First(handle))
            },
            (EnumPhase::AwaitSnapshot, EnumEvent::OpenFailed(code)) => {
                self.phase = EnumPhase::Denied(code);
                Some(EnumAction::Finish)
            },
            (EnumPhase::AwaitEntry(handle), EnumEvent::Entry(entry)) => {
                self.total = tally(self.process_id, self.capacity, &mut self.matched, self.total, &entry);
                Some(EnumAction::Next(handle))
            },
            (EnumPhase::AwaitEntry(handle), EnumEvent::End(code)) => {
                self.phase = EnumPhase::AwaitClose(handle, code);
                Some(EnumAction::Close(handle))
            },
            (EnumPhase::AwaitClose(_, code), EnumEvent::Closed) => {
                self.phase = EnumPhase::Finished(code);
                Some(EnumAction::Finish)
            },
            _ => None,
        }
    }

    /// Ends the enumeration and hands out its outcome; there is none while a
    /// request is pending.
    pub fn finish(self) -> (outcome: Option<Result<Enumeration, EnumError>>)
        ensures
            outcome.is_some() <==> self@.is_over(),
            match outcome {
                Some(result) => self@.outcome() == Some(outcome_view(result)),
                None => self@.outcome().is_none(),
            },
    {
        match self.phase {
            EnumPhase::Rejected => Some(Err(EnumError::CapacityExceeded)),
            EnumPhase::Denied(code) => Some(Err(EnumError::HandleAcquisitionFailed(code))),
            EnumPhase::Finished(code) => {
                if code == END_OF_SEQUENCE {
                    Some(Ok(Enumeration { matched: self.matched, total: self.total }))
                } else {
                    Some(Err(EnumError::EnumerationFailed(code)))
                }
            },
            _ => None,
        }
    }
}

/// Enumerates the threads of `process_id` from a snapshot that was read to
/// its end, where reading stopped on `terminal_code`: the first `capacity`
/// matching thread ids in snapshot order, and the count of all that match. A
/// capacity above the ceiling is refused before an entry is looked at; a
/// terminal code other than the end-of-sequence sentinel fails the
/// enumeration and nothing staged is handed out.
pub fn enumerate_threads(
    entries: &Vec<ThreadSnapshotEntry>,
    terminal_code: u32,
    process_id: u32,
    capacity: usize,
) -> (outcome: Result<Enumeration, EnumError>)
    ensures
        outcome_view(outcome) == enumeration_of(
            entries@,
            terminal_code,
            process_id,
            capacity as nat,
        ),
{
    if capacity > CAPACITY_CEILING {
        return Err(EnumError::CapacityExceeded);
    }
    if terminal_code != END_OF_SEQUENCE {
        return Err(EnumError::EnumerationFailed(terminal_code));
    }
    let mut matched: Vec<u32> = Vec::new();
    let mut total: usize = 0;
    let mut i: usize = 0;
    proof {
        assert(entries@.take(0) =~= Seq::<ThreadSnapshotEntry>::empty());
        assert(staged_threads(entries@.take(0), process_id, capacity as nat) =~= matched@);
    }
    while i < entries.len()
        invariant
            i <= entries@.len(),
            matched@ == staged_threads(entries@.take(i as int), process_id, capacity as nat),
            total == matching_threads(entries@.take(i as int), process_id).len(),
        decreases entries@.len() - i,
    {
        proof {
            let seen = entries@.take(i as int);
            lemma_matching_bounded(seen, process_id);
            lemma_record_entry(
                seen,
                entries@[i as int],
                EnumeratorState {
                    process_id,
                    capacity: capacity as nat,
                    phase: EnumPhase::AwaitSnapshot,
                    matched: matched@,
                    total: total as nat,
                },
            );
            assert(seen.push(entries@[i as int]) =~= entries@.take(i + 1));
        }
        total = tally(process_id, capacity, &mut matched, total, &entries[i]);
        i += 1;
    }
    proof {
        assert(entries@.take(i as int) =~= entries@);
    }
    Ok(Enumeration { matched, total })
}

/// No more threads match than the snapshot has entries.
pub proof fn lemma_matching_bounded(entries: Seq<ThreadSnapshotEntry>, process_id: u32)
    ensures
        matching_threads(entries, process_id).len() <= entries.len(),
    decreases entries.len(),
{
    if entries.len() > 0 {
        lemma_matching_bounded(entries.drop_last(), process_id);
    }
}

/// One more entry read: the matches grow by its thread id if it belongs to
/// the process, and the staged ids follow while there is room.
pub proof fn lemma_record_entry(
    entries: Seq<ThreadSnapshotEntry>,
    entry: ThreadSnapshotEntry,
    state: EnumeratorState,
)
    requires
        state.matched == staged_threads(entries, state.process_id, state.capacity),
        state.total == matching_threads(entries, state.process_id).len(),
    ensures
        state.record(entry).matched == staged_threads(
            entries.push(entry),
            state.process_id,
            state.capacity,
        ),
        state.record(entry).total == matching_threads(entries.push(entry), state.process_id).len(),
        state.record(entry).phase == state.phase,
        state.record(entry).process_id == state.process_id,
        state.record(entry).capacity == state.capacity,
{
    let longer = entries.push(entry);
    assert(longer.drop_last() =~= entries);
    assert(longer.last() == entry);
    let all = matching_threads(entries, state.process_id);
    if entry.owner_process_id == state.process_id {
        assert(matching_threads(longer, state.process_id) == all.push(entry.thread_id));
        if all.len() >= state.capacity {
            assert(all.push(entry.thread_id).take(state.capacity as int) =~= all.take(
                state.capacity as int,
            ));
            assert(all.take(all.len() as int) =~= all);
        }
    } else {
        assert(matching_threads(longer, state.process_id) == all);
    }
}

} // verus!
