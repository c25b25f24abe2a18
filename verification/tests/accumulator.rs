use gateway::{Accumulator, GatewayError};

#[test]
fn new_accumulator_is_open_and_empty() {
    let acc = Accumulator::new();
    assert!(!acc.is_closed());
    assert_eq!(acc.len(), 0);
    assert_eq!(acc.bytes(), &Vec::<u8>::new());
    assert_eq!(acc.snapshot(), None);
}

#[test]
fn append_keeps_write_order() {
    let mut acc = Accumulator::new();
    assert_eq!(acc.append(b"ab"), Ok(2));
    assert_eq!(acc.append(b""), Ok(0));
    assert_eq!(acc.append(b"cde"), Ok(3));
    assert_eq!(acc.len(), 5);
    assert_eq!(acc.bytes(), &b"abcde".to_vec());
}

#[test]
fn append_after_close_fails_and_changes_nothing() {
    let mut acc = Accumulator::new();
    assert_eq!(acc.append(b"x"), Ok(1));
    acc.close();
    assert_eq!(acc.append(b"y"), Err(GatewayError::ClosedEndpoint));
    assert_eq!(acc.len(), 1);
    assert_eq!(acc.snapshot(), Some(&b"x".to_vec()));
}

#[test]
fn accumulator_close_is_idempotent() {
    let mut acc = Accumulator::new();
    assert_eq!(acc.append(b"abc"), Ok(3));
    acc.close();
    assert!(acc.is_closed());
    acc.close();
    assert!(acc.is_closed());
    assert_eq!(acc.snapshot(), Some(&b"abc".to_vec()));
}

#[test]
fn accumulator_snapshot_only_once_closed() {
    let mut acc = Accumulator::new();
    assert_eq!(acc.append(b"abc"), Ok(3));
    assert_eq!(acc.snapshot(), None);
    acc.close();
    assert_eq!(acc.snapshot(), Some(&b"abc".to_vec()));
}

#[test]
fn release_moves_the_buffer_out() {
    let mut acc = Accumulator::new();
    assert_eq!(acc.append(b"payload"), Ok(7));
    let bytes = acc.release();
    assert_eq!(bytes, Some(b"payload".to_vec()));
    assert!(acc.is_closed());
    assert_eq!(acc.len(), 0);
    assert_eq!(acc.release(), None);
    assert_eq!(acc.append(b"z"), Err(GatewayError::ClosedEndpoint));
    assert_eq!(acc.snapshot(), Some(&Vec::<u8>::new()));
}

#[test]
fn release_after_close_leaves_the_content() {
    let mut acc = Accumulator::new();
    assert_eq!(acc.append(b"kept"), Ok(4));
    acc.close();
    assert_eq!(acc.release(), None);
    assert_eq!(acc.snapshot(), Some(&b"kept".to_vec()));
}

#[test]
fn bytes_mut_lends_the_buffer_only_while_open() {
    let mut acc = Accumulator::new();
    assert_eq!(acc.append(b"abc"), Ok(3));
    acc.bytes_mut().unwrap().clear();
    acc.bytes_mut().unwrap().push(7u8);
    assert_eq!(acc.bytes(), &vec![7u8]);
    acc.close();
    assert!(acc.bytes_mut().is_none());
    assert_eq!(acc.bytes(), &vec![7u8]);
}

#[test]
fn copy_from_is_bounded_by_capacity_and_end() {
    let mut acc = Accumulator::new();
    assert_eq!(acc.append(b"0123456789"), Ok(10));
    assert_eq!(acc.copy_from(0, 4), b"0123".to_vec());
    assert_eq!(acc.copy_from(4, 4), b"4567".to_vec());
    assert_eq!(acc.copy_from(8, 4), b"89".to_vec());
    assert_eq!(acc.copy_from(3, 0), Vec::<u8>::new());
    assert_eq!(acc.copy_from(0, usize::MAX), b"0123456789".to_vec());
    assert_eq!(acc.copy_from(9, usize::MAX), b"9".to_vec());
}

#[test]
fn copy_from_the_end_or_beyond_is_empty() {
    let mut acc = Accumulator::new();
    assert_eq!(acc.append(b"abc"), Ok(3));
    assert_eq!(acc.copy_from(3, 5), Vec::<u8>::new());
    assert_eq!(acc.copy_from(4, 5), Vec::<u8>::new());
    assert_eq!(acc.copy_from(usize::MAX, usize::MAX), Vec::<u8>::new());
    assert_eq!(Accumulator::new().copy_from(0, 1), Vec::<u8>::new());
}
