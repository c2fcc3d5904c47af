use sjkwinh::marshal::write_result;

#[test]
fn write_fills_prefix_in_order() {
    let mut buffer = vec![9i32, 9, 9, 9];
    let count = write_result(&mut buffer, &vec![1, 2], 4);
    assert_eq!(count, 2);
    assert_eq!(buffer, vec![1, 2, 9, 9]);
}

#[test]
fn write_stops_at_declared_capacity() {
    let mut buffer = vec![9i32, 9, 9, 9];
    let count = write_result(&mut buffer, &vec![5, 7, 9], 2);
    assert_eq!(count, 2);
    assert_eq!(buffer, vec![5, 7, 9, 9]);
}

#[test]
fn write_never_passes_the_buffer() {
    let mut buffer = vec![0i32, 0];
    let count = write_result(&mut buffer, &vec![5, 7, 9], 10);
    assert_eq!(count, 2);
    assert_eq!(buffer, vec![5, 7]);
}

#[test]
fn write_with_zero_capacity_writes_nothing() {
    let mut buffer = vec![4i32, 4];
    let count = write_result(&mut buffer, &vec![5, 7, 9], 0);
    assert_eq!(count, 0);
    assert_eq!(buffer, vec![4, 4]);
}

#[test]
fn write_of_no_items_writes_nothing() {
    let mut buffer = vec![4i32, 4];
    let count = write_result(&mut buffer, &vec![], 2);
    assert_eq!(count, 0);
    assert_eq!(buffer, vec![4, 4]);
}

#[test]
fn write_into_empty_buffer() {
    let mut buffer: Vec<i32> = vec![];
    let count = write_result(&mut buffer, &vec![1], 1);
    assert_eq!(count, 0);
    assert!(buffer.is_empty());
}

#[test]
fn write_carries_bit_patterns() {
    let mut buffer = vec![0i32; 3];
    let count = write_result(&mut buffer, &vec![0xffff_ffff, 0x8000_0000, 0x7fff_ffff], 3);
    assert_eq!(count, 3);
    assert_eq!(buffer, vec![-1, i32::MIN, i32::MAX]);
}
