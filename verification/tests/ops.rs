use std::collections::VecDeque;
use uring_rt::addr::{socket_addr_to_storage, SockAddr};
use uring_rt::ops::{
    accept_outcome, stream_io_outcome, FutureState, OpPoll, ReadState, RecvFromState, RecvPoll,
    SendToState, WriteState,
};
use uring_rt::poller::{Completion, Poller};
use uring_rt::proactor::Proactor;

fn complete(p: &mut Poller, user_data: u64, result: i32) -> Vec<u64> {
    p.poll(VecDeque::from(vec![Completion { user_data, result, addr: None }])).wakers
}

#[test]
fn read_submits_then_collects_its_result() {
    let mut p = Poller::new();
    let mut s = ReadState::Unsubmitted;
    let t = match s.poll(&mut p, 5) {
        OpPoll::Submit(t) => t,
        other => panic!("{:?}", other),
    };
    assert_eq!(s, ReadState::Pending(t));
    assert_eq!(complete(&mut p, t, 25), vec![5]);
    assert_eq!(s.poll(&mut p, 5), OpPoll::Ready(25));
    assert_eq!(s, ReadState::Done);
    assert!(!p.has_result(t));
}

#[test]
fn write_and_send_to_follow_the_same_steps() {
    let mut p = Poller::new();
    let mut w = WriteState::Unsubmitted;
    let mut s = SendToState::Unsubmitted;
    let tw = match w.poll(&mut p, 1) {
        OpPoll::Submit(t) => t,
        other => panic!("{:?}", other),
    };
    let ts = match s.poll(&mut p, 2) {
        OpPoll::Submit(t) => t,
        other => panic!("{:?}", other),
    };
    assert_ne!(tw, ts);
    complete(&mut p, ts, 5);
    complete(&mut p, tw, 29);
    assert_eq!(w.poll(&mut p, 1), OpPoll::Ready(29));
    assert_eq!(s.poll(&mut p, 2), OpPoll::Ready(5));
    assert_eq!(w, WriteState::Done);
    assert_eq!(s, SendToState::Done);
}

#[test]
fn recv_from_collects_result_and_peer() {
    let mut p = Poller::new();
    let mut s = RecvFromState::Unsubmitted;
    let t = match s.poll(&mut p, 9) {
        RecvPoll::Submit(t) => t,
        other => panic!("{:?}", other),
    };
    let peer = SockAddr::V4 { ip: [127, 0, 0, 1], port: 5555 };
    let out = p.poll(VecDeque::from(vec![Completion {
        user_data: t,
        result: 5,
        addr: Some(socket_addr_to_storage(peer)),
    }]));
    assert_eq!(out.wakers, vec![9]);
    assert_eq!(s.poll(&mut p, 9), RecvPoll::Ready(5, Ok(peer)));
    assert_eq!(s, RecvFromState::Done);
}

#[test]
fn tcp_future_stays_pending_until_its_result_arrives() {
    let mut p = Poller::new();
    let mut s = FutureState::Unsubmitted;
    let t = match s.poll(&mut p, 3) {
        OpPoll::Submit(t) => t,
        other => panic!("{:?}", other),
    };
    assert_eq!(s.poll(&mut p, 3), OpPoll::Pending);
    assert_eq!(s, FutureState::Pending(t));
    complete(&mut p, t, -11);
    assert_eq!(s.poll(&mut p, 3), OpPoll::Ready(-11));
    assert_eq!(s, FutureState::Done);
}

#[test]
fn stream_results_are_byte_counts_or_error_codes() {
    assert_eq!(stream_io_outcome(0), Ok(0));
    assert_eq!(stream_io_outcome(4096), Ok(4096));
    assert_eq!(stream_io_outcome(-104), Err(-104));
}

#[test]
fn accept_results_are_descriptors_or_error_numbers() {
    assert_eq!(accept_outcome(7), Ok(7));
    assert_eq!(accept_outcome(0), Ok(0));
    assert_eq!(accept_outcome(-11), Err(11));
}

#[test]
fn proactor_futures_start_unsubmitted_and_keep_their_operands() {
    let mut buf = vec![0u8; 4];
    let mut r = Proactor::<()>::read(3, &mut buf);
    assert_eq!(r.state(), ReadState::Unsubmitted);
    assert_eq!(*r.fd(), 3);
    r.buf_mut()[0] = 9;
    let w = Proactor::<()>::write(4, b"hi");
    assert_eq!(w.state(), WriteState::Unsubmitted);
    assert_eq!(*w.buf(), b"hi");
    let peer = SockAddr::V6 { ip: [0; 16], port: 9 };
    let s = Proactor::<()>::send_to(5, b"x", peer);
    assert_eq!(s.addr(), peer);
    assert_eq!(s.state(), SendToState::Unsubmitted);
    let mut rbuf = [0u8; 8];
    let rf = Proactor::<()>::recv_from(6, &mut rbuf[..]);
    assert_eq!(rf.state(), RecvFromState::Unsubmitted);
    drop(r);
    assert_eq!(buf[0], 9);
}

#[test]
fn proactor_read_future_runs_through_the_poller() {
    let mut p = Poller::new();
    let mut buf = [0u8; 2];
    let mut r = Proactor::<()>::read(0, &mut buf[..]);
    let t = match r.poll(&mut p, 1) {
        OpPoll::Submit(t) => t,
        other => panic!("{:?}", other),
    };
    complete(&mut p, t, 2);
    assert_eq!(r.poll(&mut p, 1), OpPoll::Ready(2));
    assert_eq!(r.state(), ReadState::Done);
}
