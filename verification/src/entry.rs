//! The last step of each operation: the staged result goes into the caller's
//! buffer in one write, and the tagged outcome becomes the status integer.

use vstd::prelude::*;
use crate::enumerate::enumeration_of;
use crate::enumerate::matching_threads;
use crate::enumerate::outcome_view;
use crate::enumerate::staged_threads;
use crate::enumerate::EnumOutcome;
use crate::enumerate::Enumeration;
use crate::enumerate::ThreadSnapshotEntry;
use crate::marshal::write_count;
use crate::marshal::write_result;
use crate::marshal::written;
use crate::record::lemma_record_round_trip;
use crate::record::slots_of;
use crate::record::ProcessTimeRecord;
use crate::record::TIME_RECORD_SLOTS;
use crate::status::enum_status;
use crate::status::enum_status_spec;
use crate::status::negated_status;
use crate::status::times_status;
use crate::status::times_status_spec;
use crate::status::EnumError;
use crate::status::QueryError;
use crate::status::CAPACITY_CEILING;
use crate::status::CAPACITY_EXCEEDED_STATUS;
use crate::status::END_OF_SEQUENCE;

verus! {

/// The caller's buffer after a time query: the record's eight words from
/// offset 0 on success, untouched on failure.
pub open spec fn times_buffer(
    outcome: Result<ProcessTimeRecord, QueryError>,
    buffer: Seq<i32>,
) -> Seq<i32> {
    match outcome {
        Ok(record) => written(buffer, record.words(), TIME_RECORD_SLOTS as nat),
        Err(_) => buffer,
    }
}

/// The status of an enumeration with the given outcome.
pub open spec fn enumeration_status(outcome: EnumOutcome) -> i32 {
    enum_status_spec(
        match outcome {
            Ok((_, total)) => Ok(total),
            Err(error) => Err(error),
        },
    )
}

/// The caller's buffer after an enumeration: the staged ids from offset 0 on
/// success, untouched on failure. The buffer's length is its declared
/// capacity.
pub open spec fn enumeration_buffer(outcome: EnumOutcome, buffer: Seq<i32>) -> Seq<i32> {
    match outcome {
        Ok((matched, _)) => written(buffer, matched, buffer.len()),
        Err(_) => buffer,
    }
}

/// How many slots a time query fills: the record's eight, as far as the
/// buffer reaches, on success; none on failure.
pub open spec fn times_written(outcome: Result<ProcessTimeRecord, QueryError>, buffer_len: nat) -> nat {
    match outcome {
        Ok(_) => write_count(TIME_RECORD_SLOTS as nat, TIME_RECORD_SLOTS as nat, buffer_len),
        Err(_) => 0,
    }
}

/// How many slots an enumeration fills: the staged ids, as far as the buffer
/// reaches, on success; none on failure.
pub open spec fn enumeration_written(outcome: EnumOutcome, buffer_len: nat) -> nat {
    match outcome {
        Ok((matched, _)) => write_count(matched.len(), buffer_len, buffer_len),
        Err(_) => 0,
    }
}

/// What an operation hands back besides the buffer: its status, and how many
/// slots from offset 0 it filled.
#[derive(Clone, Copy, Debug, PartialEq, Eq, Structural)]
pub struct Delivery {
    pub status: i32,
    pub written: usize,
}

/// Completes a time query: on success the record is written into the
/// caller's buffer and the status is zero; on failure the buffer stays as it
/// was and the status is the error code.
pub fn deliver_times(outcome: &Result<ProcessTimeRecord, QueryError>, buffer: &mut Vec<i32>) -> (delivery:
    Delivery)
    ensures
        delivery.status == times_status_spec(*outcome),
        delivery.written == times_written(*outcome, old(buffer)@.len()),
        final(buffer)@ == times_buffer(*outcome, old(buffer)@),
{
    let status: i32 = times_status(outcome);
    match outcome {
        Ok(record) => {
            let words = record.to_words();
            let written: usize = write_result(buffer, &words, TIME_RECORD_SLOTS);
            Delivery { status, written }
        },
        Err(_) => Delivery { status, written: 0 },
    }
}

/// Completes an enumeration: on success the staged thread ids are written
/// into the caller's buffer and the status is the count of all matches; on
/// failure the buffer stays as it was and the status tells the failure.
pub fn deliver_enumeration(outcome: &Result<Enumeration, EnumError>, buffer: &mut Vec<i32>) -> (delivery:
    Delivery)
    ensures
        delivery.status == enumeration_status(outcome_view(*outcome)),
        delivery.written == enumeration_written(outcome_view(*outcome), old(buffer)@.len()),
        final(buffer)@ == enumeration_buffer(outcome_view(*outcome), old(buffer)@),
{
    match outcome {
        Ok(listing) => {
            let capacity: usize = buffer.len();
            let written: usize = write_result(buffer, &listing.matched, capacity);
            Delivery { status: enum_status(&Ok(listing.total)), written }
        },
        Err(error) => Delivery { status: enum_status(&Err(*error)), written: 0 },
    }
}

/// A successful time query into a buffer of eight slots reports zero and
/// leaves a buffer that decodes to the record that was read, field for field.
pub proof fn lemma_times_delivered(record: ProcessTimeRecord, buffer: Seq<i32>)
    requires
        buffer.len() == TIME_RECORD_SLOTS,
    ensures
        times_status_spec(Ok::<ProcessTimeRecord, QueryError>(record)) == 0,
        times_buffer(Ok(record), buffer) == slots_of(record.words()),
        ProcessTimeRecord::decode(times_buffer(Ok(record), buffer)) == record,
{
    lemma_record_round_trip(record);
    assert(times_buffer(Ok(record), buffer) =~= slots_of(record.words()));
}

/// A failed time query leaves the buffer untouched, and its status is the
/// error code itself, strictly positive, whenever the code is one and fits a
/// signed value.
pub proof fn lemma_times_failed(error: QueryError, buffer: Seq<i32>)
    ensures
        times_buffer(Err(error), buffer) == buffer,
        0 < error.code_spec() <= i32::MAX ==> times_status_spec::<ProcessTimeRecord>(Err(error))
            == error.code_spec() && times_status_spec::<ProcessTimeRecord>(Err(error)) > 0,
{
}

/// With no capacity at all an enumeration still reports how many threads
/// match, and writes nothing.
pub proof fn lemma_zero_capacity_counts(
    entries: Seq<ThreadSnapshotEntry>,
    process_id: u32,
    buffer: Seq<i32>,
)
    requires
        matching_threads(entries, process_id).len() <= i32::MAX,
    ensures
        enumeration_status(enumeration_of(entries, END_OF_SEQUENCE, process_id, 0))
            == matching_threads(entries, process_id).len(),
        enumeration_of(entries, END_OF_SEQUENCE, process_id, 0) == Ok::<(Seq<u32>, nat), EnumError>(
            (Seq::<u32>::empty(), matching_threads(entries, process_id).len()),
        ),
        enumeration_buffer(
            Ok((Seq::<u32>::empty(), matching_threads(entries, process_id).len())),
            buffer,
        ) == buffer,
        enumeration_written(
            Ok((Seq::<u32>::empty(), matching_threads(entries, process_id).len())),
            buffer.len(),
        ) == 0,
{
    let all = matching_threads(entries, process_id);
    assert(staged_threads(entries, process_id, 0) =~= Seq::<u32>::empty());
    assert(written(buffer, Seq::<u32>::empty(), buffer.len()) =~= buffer);
}

/// With room for every match the status is the number of slots filled, and
/// the filled slots are all the matching ids in snapshot order.
pub proof fn lemma_ample_capacity_fills(
    entries: Seq<ThreadSnapshotEntry>,
    process_id: u32,
    buffer: Seq<i32>,
)
    requires
        matching_threads(entries, process_id).len() <= buffer.len() <= CAPACITY_CEILING,
    ensures
        enumeration_of(entries, END_OF_SEQUENCE, process_id, buffer.len()) == Ok::<
            (Seq<u32>, nat),
            EnumError,
        >((matching_threads(entries, process_id), matching_threads(entries, process_id).len())),
        enumeration_status(enumeration_of(entries, END_OF_SEQUENCE, process_id, buffer.len()))
            == enumeration_written(
            enumeration_of(entries, END_OF_SEQUENCE, process_id, buffer.len()),
            buffer.len(),
        ),
        enumeration_written(
            enumeration_of(entries, END_OF_SEQUENCE, process_id, buffer.len()),
            buffer.len(),
        ) == matching_threads(entries, process_id).len(),
        enumeration_buffer(
            enumeration_of(entries, END_OF_SEQUENCE, process_id, buffer.len()),
            buffer,
        ).take(matching_threads(entries, process_id).len() as int) == slots_of(
            matching_threads(entries, process_id),
        ),
{
    let all = matching_threads(entries, process_id);
    let outcome = enumeration_of(entries, END_OF_SEQUENCE, process_id, buffer.len());
    assert(enumeration_buffer(outcome, buffer).take(all.len() as int) =~= slots_of(all));
}

/// A truncated enumeration reports every match but fills only the buffer:
/// the slots carry the first matches in snapshot order, as many as fit.
pub proof fn lemma_scarce_capacity_truncates(
    entries: Seq<ThreadSnapshotEntry>,
    process_id: u32,
    buffer: Seq<i32>,
)
    requires
        buffer.len() <= CAPACITY_CEILING,
        buffer.len() < matching_threads(entries, process_id).len() <= i32::MAX,
    ensures
        enumeration_status(enumeration_of(entries, END_OF_SEQUENCE, process_id, buffer.len()))
            == matching_threads(entries, process_id).len(),
        enumeration_buffer(
            enumeration_of(entries, END_OF_SEQUENCE, process_id, buffer.len()),
            buffer,
        ) == slots_of(matching_threads(entries, process_id).take(buffer.len() as int)),
{
    let all = matching_threads(entries, process_id);
    let outcome = enumeration_of(entries, END_OF_SEQUENCE, process_id, buffer.len());
    assert(enumeration_buffer(outcome, buffer) =~= slots_of(all.take(buffer.len() as int)));
}

/// A capacity above the ceiling is answered with the capacity status,
/// whatever the snapshot would have held, and nothing is written.
pub proof fn lemma_over_capacity_status(
    entries: Seq<ThreadSnapshotEntry>,
    code: u32,
    process_id: u32,
    buffer: Seq<i32>,
)
    requires
        buffer.len() > CAPACITY_CEILING,
    ensures
        enumeration_status(enumeration_of(entries, code, process_id, buffer.len()))
            == CAPACITY_EXCEEDED_STATUS,
        enumeration_buffer(enumeration_of(entries, code, process_id, buffer.len()), buffer)
            == buffer,
        enumeration_written(enumeration_of(entries, code, process_id, buffer.len()), buffer.len())
            == 0,
{
}

/// An iteration that ends on anything but the sentinel fails the enumeration:
/// the status is the negated code, and none of the matches found before
/// reaches the buffer.
pub proof fn lemma_failed_enumeration_writes_nothing(
    entries: Seq<ThreadSnapshotEntry>,
    code: u32,
    process_id: u32,
    buffer: Seq<i32>,
)
    requires
        buffer.len() <= CAPACITY_CEILING,
        code != END_OF_SEQUENCE,
    ensures
        enumeration_status(enumeration_of(entries, code, process_id, buffer.len()))
            == negated_status(code),
        enumeration_buffer(enumeration_of(entries, code, process_id, buffer.len()), buffer)
            == buffer,
        enumeration_written(enumeration_of(entries, code, process_id, buffer.len()), buffer.len())
            == 0,
{
}

} // verus!
