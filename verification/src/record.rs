//! Fixed-shape records and their encoding into 32-bit buffer slots.

use vstd::prelude::*;

verus! {

/// Number of 32-bit slots that one time record occupies in a caller buffer.
pub const TIME_RECORD_SLOTS: usize = 8;

/// The signed slot that carries the bit pattern of an unsigned 32-bit word.
pub open spec fn slot_of(word: u32) -> i32 {
    if word <= 0x7fff_ffff {
        word as i32
    } else {
        (word - 0x1_0000_0000) as i32
    }
}

/// The unsigned 32-bit word whose bit pattern a signed slot carries.
pub open spec fn word_of(slot: i32) -> u32 {
    if slot >= 0 {
        slot as u32
    } else {
        (slot + 0x1_0000_0000) as u32
    }
}

/// Reinterprets an unsigned 32-bit word as a signed buffer slot.
pub fn to_slot(word: u32) -> (slot: i32)
    ensures
        slot == slot_of(word),
{
    if word <= 0x7fff_ffff {
        word as i32
    } else {
        let upper: u32 = word - 0x8000_0000;
        (upper as i32) + i32::MIN
    }
}

/// Reinterprets a signed buffer slot as an unsigned 32-bit word.
pub fn to_word(slot: i32) -> (word: u32)
    ensures
        word == word_of(slot),
{
    if slot >= 0 {
        slot as u32
    } else {
        let lower: i32 = slot - i32::MIN;
        (lower as u32) + 0x8000_0000
    }
}

/// Reinterpreting a word as a slot and back loses nothing, in either
/// direction.
pub proof fn lemma_slot_word_inverse(word: u32, slot: i32)
    ensures
        word_of(slot_of(word)) == word,
        slot_of(word_of(slot)) == slot,
{
}

/// A 64-bit tick count split into its low and high 32-bit halves.
#[derive(Clone, Copy, Debug, PartialEq, Eq, Structural)]
pub struct TimestampPair {
    pub low: u32,
    pub high: u32,
}

impl TimestampPair {
    /// The tick count that the two halves stand for.
    pub open spec fn ticks_spec(self) -> nat {
        (self.high * 0x1_0000_0000 + self.low) as nat
    }

    /// The tick count that the two halves stand for.
    pub fn ticks(&self) -> (ticks: u64)
        ensures
            ticks == self.ticks_spec(),
    {
        (self.high as u64) * 0x1_0000_0000 + (self.low as u64)
    }
}

/// Tick counts compare as their halves do, the high half first.
pub proof fn lemma_ticks_order(earlier: TimestampPair, later: TimestampPair)
    ensures
        earlier.ticks_spec() <= later.ticks_spec() <==> earlier.high < later.high || (earlier.high
            == later.high && earlier.low <= later.low),
        earlier.ticks_spec() == later.ticks_spec() <==> earlier == later,
{
}

/// Creation, exit, kernel-mode and user-mode times of one process or thread.
#[derive(Clone, Copy, Debug, PartialEq, Eq, Structural)]
pub struct ProcessTimeRecord {
    pub creation: TimestampPair,
    pub exit: TimestampPair,
    pub kernel: TimestampPair,
    pub user: TimestampPair,
}

/// The signed slots that carry a sequence of words, one for one.
pub open spec fn slots_of(words: Seq<u32>) -> Seq<i32> {
    Seq::new(words.len(), |i: int| slot_of(words[i]))
}

impl ProcessTimeRecord {
    /// The eight words of the record in wire order: creation, exit, kernel,
    /// user, each as low half then high half.
    pub open spec fn words(self) -> Seq<u32> {
        seq![
            self.creation.low,
            self.creation.high,
            self.exit.low,
            self.exit.high,
            self.kernel.low,
            self.kernel.high,
            self.user.low,
            self.user.high,
        ]
    }

    /// The record that eight slots in wire order stand for.
    pub open spec fn decode(slots: Seq<i32>) -> ProcessTimeRecord
        recommends
            slots.len() == 8,
    {
        ProcessTimeRecord {
            creation: TimestampPair { low: word_of(slots[0]), high: word_of(slots[1]) },
            exit: TimestampPair { low: word_of(slots[2]), high: word_of(slots[3]) },
            kernel: TimestampPair { low: word_of(slots[4]), high: word_of(slots[5]) },
            user: TimestampPair { low: word_of(slots[6]), high: word_of(slots[7]) },
        }
    }

    /// Lays the record out as its eight words in wire order.
    pub fn to_words(&self) -> (words: Vec<u32>)
        ensures
            words@ == self.words(),
    {
        let mut words: Vec<u32> = Vec::with_capacity(TIME_RECORD_SLOTS);
        words.push(self.creation.low);
        words.push(self.creation.high);
        words.push(self.exit.low);
        words.push(self.exit.high);
        words.push(self.kernel.low);
        words.push(self.kernel.high);
        words.push(self.user.low);
        words.push(self.user.high);
        assert(words@ =~= self.words());
        words
    }

    /// Reads a record back from the first eight slots of a buffer. A buffer
    /// with fewer than eight slots holds no record.
    pub fn from_slots(slots: &Vec<i32>) -> (record: Option<ProcessTimeRecord>)
        ensures
            record.is_some() <==> slots@.len() >= 8,
            record.is_some() ==> record.unwrap() == Self::decode(slots@),
    {
        if slots.len() < TIME_RECORD_SLOTS {
            return None;
        }
        Some(
            ProcessTimeRecord {
                creation: TimestampPair { low: to_word(slots[0]), high: to_word(slots[1]) },
                exit: TimestampPair { low: to_word(slots[2]), high: to_word(slots[3]) },
                kernel: TimestampPair { low: to_word(slots[4]), high: to_word(slots[5]) },
                user: TimestampPair { low: to_word(slots[6]), high: to_word(slots[7]) },
            },
        )
    }
}

/// A record laid out as slots and read back is the record that went in, field
/// for field and in wire order.
pub proof fn lemma_record_round_trip(record: ProcessTimeRecord)
    ensures
        slots_of(record.words()).len() == 8,
        ProcessTimeRecord::decode(slots_of(record.words())) == record,
{
    let words = record.words();
    let slots = slots_of(words);
    assert(words.len() == 8);
    assert forall|i: int| 0 <= i < 8 implies word_of(#[trigger] slots[i]) == words[i] by {
        lemma_slot_word_inverse(words[i], 0);
    }
}

} // verus!
