//! The single terminal copy of staged results into a caller-owned buffer.

use vstd::prelude::*;
use crate::record::slot_of;
use crate::record::to_slot;

verus! {

/// How many slots a write fills: no more than the items produced, the
/// capacity the caller declared, or the slots the buffer really has.
pub open spec fn write_count(items: nat, declared_capacity: nat, buffer_len: nat) -> nat {
    let wanted = if items <= declared_capacity { items } else { declared_capacity };
    if wanted <= buffer_len { wanted } else { buffer_len }
}

/// The buffer after a write: the first `write_count` slots carry the items
/// in sequence order, every later slot is as the caller provided it.
pub open spec fn written(buffer: Seq<i32>, items: Seq<u32>, declared_capacity: nat) -> Seq<i32> {
    let count = write_count(items.len(), declared_capacity, buffer.len());
    Seq::new(buffer.len(), |i: int| if i < count { slot_of(items[i]) } else { buffer[i] })
}

/// Copies the staged items into the caller's buffer from offset 0, never past
/// the declared capacity and never growing the buffer, and reports how many
/// slots were filled.
pub fn write_result(buffer: &mut Vec<i32>, items: &Vec<u32>, declared_capacity: usize) -> (count: usize)
    ensures
        count == write_count(items@.len(), declared_capacity as nat, old(buffer)@.len()),
        final(buffer)@ == written(old(buffer)@, items@, declared_capacity as nat),
{
    let wanted: usize = if items.len() <= declared_capacity { items.len() } else { declared_capacity };
    let count: usize = if wanted <= buffer.len() { wanted } else { buffer.len() };
    let ghost before = buffer@;
    let mut i: usize = 0;
    while i < count
        invariant
            i <= count,
            count <= items@.len(),
            count <= before.len(),
            buffer@.len() == before.len(),
            forall|j: int| 0 <= j < i ==> buffer@[j] == slot_of(items@[j]),
            forall|j: int| i <= j < before.len() ==> buffer@[j] == before[j],
        decreases count - i,
    {
        let slot: i32 = to_slot(items[i]);
        buffer.set(i, slot);
        i += 1;
    }
    assert(buffer@ =~= written(before, items@, declared_capacity as nat));
    count
}

/// A write changes nothing but the filled prefix: the length stays, and each
/// slot at or past the count is untouched.
pub proof fn lemma_written_keeps_rest(buffer: Seq<i32>, items: Seq<u32>, declared_capacity: nat)
    ensures
        written(buffer, items, declared_capacity).len() == buffer.len(),
        forall|i: int|
            write_count(items.len(), declared_capacity, buffer.len()) <= i < buffer.len()
                ==> written(buffer, items, declared_capacity)[i] == buffer[i],
        write_count(items.len(), declared_capacity, buffer.len()) == 0 ==> written(
            buffer,
            items,
            declared_capacity,
        ) == buffer,
{
    assert(write_count(items.len(), declared_capacity, buffer.len()) == 0 ==> written(
        buffer,
        items,
        declared_capacity,
    ) =~= buffer);
}

} // verus!
