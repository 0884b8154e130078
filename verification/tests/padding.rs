//! The zero-padding byte sources: reads past the end of finite data yield
//! zeros, and the remaining length is always reported as unknown.

use runtime_primitives::input::{AppendZerosInput, ByteInput, Input, TrailingZeroInput};

#[test]
fn trailing_zero_should_work() {
    let mut t = TrailingZeroInput::new(vec![1, 2, 3]);
    assert_eq!(t.remaining_len(), Ok(None));
    let mut buffer = vec![0u8; 2];
    assert_eq!(t.read(&mut buffer), Ok(()));
    assert_eq!(t.remaining_len(), Ok(None));
    assert_eq!(buffer, vec![1, 2]);
    assert_eq!(t.read(&mut buffer), Ok(()));
    assert_eq!(t.remaining_len(), Ok(None));
    assert_eq!(buffer, vec![3, 0]);
    assert_eq!(t.read(&mut buffer), Ok(()));
    assert_eq!(t.remaining_len(), Ok(None));
    assert_eq!(buffer, vec![0, 0]);
}

#[test]
fn append_zeros_pads_a_finite_source() {
    let mut a = AppendZerosInput::new(ByteInput::new(vec![1, 2, 3]));
    assert_eq!(a.remaining_len(), Ok(None));
    let mut buffer = vec![0xffu8; 5];
    assert_eq!(a.read(&mut buffer), Ok(()));
    assert_eq!(buffer, vec![1, 2, 3, 0, 0]);
    let mut more = vec![0xffu8; 2];
    assert_eq!(a.read(&mut more), Ok(()));
    assert_eq!(more, vec![0, 0]);
    assert_eq!(a.remaining_len(), Ok(None));
}

#[test]
fn append_zeros_over_a_padded_source() {
    // Wrapping a source that already pads changes nothing: the real bytes
    // come first, zeros after.
    let mut a = AppendZerosInput::new(TrailingZeroInput::new(vec![9, 8]));
    let mut buffer = vec![0xffu8; 4];
    assert_eq!(a.read(&mut buffer), Ok(()));
    assert_eq!(buffer, vec![9, 8, 0, 0]);
}

#[test]
fn append_zeros_serves_split_reads() {
    let mut a = AppendZerosInput::new(ByteInput::new(vec![5, 6, 7]));
    let mut first = vec![0u8; 2];
    assert_eq!(a.read(&mut first), Ok(()));
    assert_eq!(first, vec![5, 6]);
    let mut second = vec![0u8; 3];
    assert_eq!(a.read(&mut second), Ok(()));
    assert_eq!(second, vec![7, 0, 0]);
}

#[test]
fn finite_source_refuses_overlong_reads() {
    let mut b = ByteInput::new(vec![1, 2]);
    assert_eq!(b.remaining_len(), Ok(Some(2)));
    let mut buffer = vec![0u8; 3];
    assert!(b.read(&mut buffer).is_err());
    // The failed read consumed nothing.
    let mut ok = vec![0u8; 2];
    assert_eq!(b.read(&mut ok), Ok(()));
    assert_eq!(ok, vec![1, 2]);
}

#[test]
fn read_byte_serves_bytes_then_zeros() {
    let mut t = TrailingZeroInput::new(vec![4]);
    assert_eq!(t.read_byte(), Ok(4));
    assert_eq!(t.read_byte(), Ok(0));
    let mut b = ByteInput::new(vec![4]);
    assert_eq!(b.read_byte(), Ok(4));
    assert!(b.read_byte().is_err());
}
