use uring_rt::traits::read::Slice as ReadSlice;
use uring_rt::traits::write::Slice as WriteSlice;
use uring_rt::traits::{Advance, IoBuf, IoBufMut, Progress};

#[test]
fn slice_spans_its_range_and_gives_the_buffer_back() {
    let s = WriteSlice::new(vec![1u8, 2, 3, 4, 5], 1, 4);
    assert_eq!((s.start(), s.end()), (1, 4));
    assert_eq!(s.bytes_init(), 3);
    assert_eq!(s.get_ref().len(), 5);
    assert_eq!(s.into_inner(), vec![1, 2, 3, 4, 5]);
}

#[test]
fn read_slice_takes_the_rest_of_the_buffer() {
    let mut s = ReadSlice::new(Vec::<u8>::with_capacity(16), 6, 16);
    assert_eq!(s.bytes_total(), 10);
    s.get_mut().push(7);
    assert_eq!(s.into_inner(), vec![7]);
}

#[test]
fn buffers_report_their_sizes() {
    assert_eq!(vec![0u8; 3].bytes_init(), 3);
    let stat: &'static [u8] = b"hello";
    assert_eq!(stat.bytes_init(), 5);
    assert_eq!(b"hello from client".bytes_init(), 17);
    assert!(Vec::<u8>::with_capacity(32).bytes_total() >= 32);
}

#[test]
fn progress_finishes_when_the_sum_reaches_the_total() {
    let mut p = Progress::new(11);
    assert!(!p.is_complete());
    assert_eq!(p.advance(5), Advance::Continue);
    assert_eq!(p.done(), 5);
    assert_eq!(p.advance(6), Advance::Finished);
    assert!(p.is_complete());
    assert_eq!((p.done(), p.total()), (11, 11));
}

#[test]
fn zero_byte_transfer_stalls() {
    let mut p = Progress::new(5);
    assert_eq!(p.advance(2), Advance::Continue);
    assert_eq!(p.advance(0), Advance::Stalled);
    assert_eq!(p.done(), 2);
}

#[test]
fn empty_buffer_is_complete_from_the_start() {
    assert!(Progress::new(0).is_complete());
}

#[test]
fn overlong_transfer_still_finishes() {
    let mut p = Progress::new(4);
    assert_eq!(p.advance(9), Advance::Finished);
    assert_eq!(p.done(), 9);
}
