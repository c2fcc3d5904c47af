use sjkwinh::record::ProcessTimeRecord;
use sjkwinh::record::TimestampPair;
use sjkwinh::status::cycle_status;
use sjkwinh::status::enum_status;
use sjkwinh::status::negate_code;
use sjkwinh::status::times_status;
use sjkwinh::status::EnumError;
use sjkwinh::status::QueryError;
use sjkwinh::status::CAPACITY_CEILING;
use sjkwinh::status::CAPACITY_EXCEEDED_STATUS;
use sjkwinh::status::END_OF_SEQUENCE;

#[test]
fn constants_have_their_values() {
    assert_eq!(CAPACITY_CEILING, 1024);
    assert_eq!(CAPACITY_EXCEEDED_STATUS, -1000000);
    assert_eq!(END_OF_SEQUENCE, 18);
}

#[test]
fn error_carries_its_code() {
    assert_eq!(QueryError::HandleAcquisitionFailed(5).code(), 5);
    assert_eq!(QueryError::QueryFailed(87).code(), 87);
}

#[test]
fn times_status_is_zero_or_the_code() {
    let pair = TimestampPair { low: 1, high: 1 };
    let record = ProcessTimeRecord { creation: pair, exit: pair, kernel: pair, user: pair };
    assert_eq!(times_status(&Ok(record)), 0);
    assert_eq!(times_status(&Err(QueryError::HandleAcquisitionFailed(5))), 5);
    assert_eq!(times_status(&Err(QueryError::HandleAcquisitionFailed(87))), 87);
    assert_eq!(times_status(&Err(QueryError::QueryFailed(6))), 6);
    assert_eq!(times_status(&Err(QueryError::QueryFailed(0x7fff_ffff))), i32::MAX);
    assert_eq!(times_status(&Err(QueryError::QueryFailed(0xffff_ffff))), -1);
}

#[test]
fn cycle_status_is_count_or_negated_code() {
    assert_eq!(cycle_status(&Ok(0)), 0);
    assert_eq!(cycle_status(&Ok(123_456_789_012)), 123_456_789_012);
    assert_eq!(cycle_status(&Ok(0x7fff_ffff_ffff_ffff)), i64::MAX);
    assert_eq!(cycle_status(&Err(QueryError::HandleAcquisitionFailed(5))), -5);
    assert_eq!(cycle_status(&Err(QueryError::QueryFailed(87))), -87);
    assert_eq!(cycle_status(&Err(QueryError::QueryFailed(0xffff_ffff))), -4_294_967_295);
    assert_eq!(cycle_status(&Err(QueryError::QueryFailed(0))), 0);
}

#[test]
fn cycle_count_above_sign_bit_keeps_its_pattern() {
    assert_eq!(cycle_status(&Ok(0x8000_0000_0000_0000)), i64::MIN);
    assert_eq!(cycle_status(&Ok(u64::MAX)), -1);
    assert_eq!(cycle_status(&Ok(u64::MAX - 4)), cycle_status(&Err(QueryError::QueryFailed(5))));
}

#[test]
fn enum_status_is_count_or_negated_code_or_sentinel() {
    assert_eq!(enum_status(&Ok(0)), 0);
    assert_eq!(enum_status(&Ok(3)), 3);
    assert_eq!(enum_status(&Ok(5000)), 5000);
    assert_eq!(enum_status(&Err(EnumError::HandleAcquisitionFailed(6))), -6);
    assert_eq!(enum_status(&Err(EnumError::EnumerationFailed(5))), -5);
    assert_eq!(enum_status(&Err(EnumError::CapacityExceeded)), -1000000);
}

#[test]
fn enum_status_cuts_count_to_32_bits() {
    assert_eq!(enum_status(&Ok(0x7fff_ffff)), i32::MAX);
    if usize::BITS > 32 {
        let two_to_32 = (1u64 << 32) as usize;
        assert_eq!(enum_status(&Ok(two_to_32 + 3)), 3);
        assert_eq!(enum_status(&Ok(two_to_32 - 1)), -1);
    }
}

#[test]
fn negation_wraps_in_two_complement() {
    assert_eq!(negate_code(0), 0);
    assert_eq!(negate_code(1), -1);
    assert_eq!(negate_code(18), -18);
    assert_eq!(negate_code(0x7fff_ffff), -i32::MAX);
    assert_eq!(negate_code(0x8000_0000), i32::MIN);
    assert_eq!(negate_code(0xffff_ffff), 1);
}
