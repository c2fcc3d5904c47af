//! Failures of an operation, and the collapse of a tagged result into the one
//! integer that crosses the boundary.

use vstd::prelude::*;
use crate::record::slot_of;
use crate::record::to_slot;

verus! {

/// Largest buffer capacity that one enumeration serves.
pub const CAPACITY_CEILING: usize = 1024;

/// Status that tells the caller its buffer is larger than the ceiling.
pub const CAPACITY_EXCEEDED_STATUS: i32 = -1000000;

/// The error code by which the system says that an iteration is exhausted.
pub const END_OF_SEQUENCE: u32 = 18;

/// Why a time or cycle query produced no value.
#[derive(Clone, Copy, Debug, PartialEq, Eq, Structural)]
pub enum QueryError {
    /// No handle was granted for the identifier.
    HandleAcquisitionFailed(u32),
    /// The handle was granted, and the query on it failed.
    QueryFailed(u32),
}

impl QueryError {
    /// The system error code carried by the failure.
    pub open spec fn code_spec(self) -> u32 {
        match self {
            QueryError::HandleAcquisitionFailed(code) => code,
            QueryError::QueryFailed(code) => code,
        }
    }

    /// The system error code carried by the failure.
    pub fn code(&self) -> (code: u32)
        ensures
            code == self.code_spec(),
    {
        match self {
            QueryError::HandleAcquisitionFailed(code) => *code,
            QueryError::QueryFailed(code) => *code,
        }
    }
}

/// Why an enumeration produced no listing.
#[derive(Clone, Copy, Debug, PartialEq, Eq, Structural)]
pub enum EnumError {
    /// No snapshot handle was granted.
    HandleAcquisitionFailed(u32),
    /// Iteration stopped on a code other than the end-of-sequence sentinel.
    EnumerationFailed(u32),
    /// The caller's buffer is larger than the ceiling.
    CapacityExceeded,
}

/// The negation of a code read as a signed 32-bit value, in two's complement:
/// the one pattern without a negation stays as it is.
pub open spec fn negated_status(code: u32) -> i32 {
    if code == 0x8000_0000 {
        i32::MIN
    } else {
        (-slot_of(code)) as i32
    }
}

/// A count cut to its low 32 bits and read as a signed value.
pub open spec fn count_status(count: nat) -> i32 {
    slot_of((count % 0x1_0000_0000) as u32)
}

/// A cycle count read as a signed 64-bit value with the same bit pattern.
pub open spec fn cycles_status(cycles: u64) -> i64 {
    if cycles <= 0x7fff_ffff_ffff_ffff {
        cycles as i64
    } else {
        (cycles - 0x1_0000_0000_0000_0000) as i64
    }
}

/// Status of a time query: zero on success, else the error code's bit
/// pattern.
pub open spec fn times_status_spec<T>(outcome: Result<T, QueryError>) -> i32 {
    match outcome {
        Ok(_) => 0,
        Err(error) => slot_of(error.code_spec()),
    }
}

/// Status of a cycle query: the count on success, else the negated error code.
pub open spec fn cycle_status_spec(outcome: Result<u64, QueryError>) -> i64 {
    match outcome {
        Ok(cycles) => cycles_status(cycles),
        Err(error) => (-error.code_spec()) as i64,
    }
}

/// Status of an enumeration that found `total` matches or failed.
pub open spec fn enum_status_spec(outcome: Result<nat, EnumError>) -> i32 {
    match outcome {
        Ok(total) => count_status(total),
        Err(EnumError::HandleAcquisitionFailed(code)) => negated_status(code),
        Err(EnumError::EnumerationFailed(code)) => negated_status(code),
        Err(EnumError::CapacityExceeded) => CAPACITY_EXCEEDED_STATUS,
    }
}

/// Negates an error code read as a signed 32-bit value.
pub fn negate_code(code: u32) -> (status: i32)
    ensures
        status == negated_status(code),
{
    let signed: i32 = to_slot(code);
    if signed == i32::MIN {
        signed
    } else {
        0 - signed
    }
}

/// Collapses the outcome of a time query into its status.
pub fn times_status(outcome: &Result<crate::record::ProcessTimeRecord, QueryError>) -> (status: i32)
    ensures
        status == times_status_spec(*outcome),
{
    match outcome {
        Ok(_) => 0,
        Err(error) => to_slot(error.code()),
    }
}

/// Collapses the outcome of a cycle query into its status.
pub fn cycle_status(outcome: &Result<u64, QueryError>) -> (status: i64)
    ensures
        status == cycle_status_spec(*outcome),
{
    match outcome {
        Ok(cycles) => {
            if *cycles <= 0x7fff_ffff_ffff_ffff {
                *cycles as i64
            } else {
                let upper: u64 = *cycles - 0x8000_0000_0000_0000;
                (upper as i64) + i64::MIN
            }
        },
        Err(error) => 0 - (error.code() as i64),
    }
}

/// Collapses the outcome of an enumeration, given as its total match count or
/// its failure, into its status.
pub fn enum_status(outcome: &Result<usize, EnumError>) -> (status: i32)
    ensures
        status == enum_status_spec(
            match *outcome {
                Ok(total) => Ok(total as nat),
                Err(error) => Err(error),
            },
        ),
{
    match outcome {
        Ok(total) => {
            let low: u64 = (*total as u64) % 0x1_0000_0000;
            to_slot(low as u32)
        },
        Err(EnumError::HandleAcquisitionFailed(code)) => negate_code(*code),
        Err(EnumError::EnumerationFailed(code)) => negate_code(*code),
        Err(EnumError::CapacityExceeded) => CAPACITY_EXCEEDED_STATUS,
    }
}

/// What the statuses mean on the ranges the caller relies on: a failed time
/// query with a code that fits a positive signed value reports that code, a
/// failed cycle query or enumeration reports its negation, a count that fits
/// is reported as it is, and a cycle count below the sign bit is reported as
/// it is.
pub proof fn lemma_status_ranges(error: QueryError, code: u32, total: nat, cycles: u64)
    ensures
        0 < error.code_spec() <= i32::MAX ==> times_status_spec::<u64>(Err(error))
            == error.code_spec() && times_status_spec::<u64>(Err(error)) > 0,
        cycle_status_spec(Err(error)) == -error.code_spec(),
        cycle_status_spec(Err(error)) <= 0,
        code <= i32::MAX ==> negated_status(code) == -code,
        total <= i32::MAX ==> count_status(total) == total,
        cycles <= i64::MAX ==> cycle_status_spec(Ok(cycles)) == cycles,
{
}

} // verus!
