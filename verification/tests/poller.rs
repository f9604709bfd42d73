use std::collections::VecDeque;
use uring_rt::addr::{socket_addr_to_storage, AddrError, SockAddr, SockAddrStorage};
use uring_rt::poller::{Completion, Poller, WAKE_TOKEN};

fn done(user_data: u64, result: i32) -> Completion {
    Completion { user_data, result, addr: None }
}

#[test]
fn registered_operations_get_distinct_tokens() {
    let mut p = Poller::new();
    let a = p.register(7);
    let b = p.register(8);
    let c = p.register(9);
    assert_ne!(a, b);
    assert_ne!(b, c);
    assert_ne!(a, c);
    assert!(a != WAKE_TOKEN && b != WAKE_TOKEN && c != WAKE_TOKEN);
}

#[test]
fn completion_wakes_the_registered_waker_and_keeps_the_result_once() {
    let mut p = Poller::new();
    let t = p.register(42);
    assert_eq!(p.get_result(t), None);
    let out = p.poll(VecDeque::from(vec![done(t, 11)]));
    assert_eq!(out.wakers, vec![42]);
    assert_eq!(out.wakeups, 0);
    assert!(p.has_result(t));
    assert_eq!(p.get_result(t), Some(11));
    assert_eq!(p.get_result(t), None);
}

#[test]
fn completions_are_applied_in_order_and_strangers_ignored() {
    let mut p = Poller::new();
    let a = p.register(1);
    let b = p.register(2);
    let out = p.poll(VecDeque::from(vec![
        done(b, -104),
        done(WAKE_TOKEN, 8),
        done(9999, 3),
        done(a, 5),
        done(a, 6),
        done(WAKE_TOKEN, 8),
    ]));
    assert_eq!(out.wakers, vec![2, 1]);
    assert_eq!(out.wakeups, 2);
    assert_eq!(p.get_result(a), Some(5));
    assert_eq!(p.get_result(b), Some(-104));
    assert_eq!(p.get_result(9999), None);
    assert_eq!(p.get_result(WAKE_TOKEN), None);
}

#[test]
fn recvmsg_completion_keeps_the_peer_address() {
    let mut p = Poller::new();
    let t = p.register(3);
    let peer = SockAddr::V4 { ip: [127, 0, 0, 1], port: 40000 };
    let (storage, len) = socket_addr_to_storage(peer);
    let out = p.poll(VecDeque::from(vec![Completion { user_data: t, result: 5, addr: Some((storage, len)) }]));
    assert_eq!(out.wakers, vec![3]);
    assert_eq!(p.get_addr_result(t), Some((5, Ok(peer))));
    assert_eq!(p.get_addr_result(t), None);
}

#[test]
fn addr_result_without_address_takes_the_result() {
    let mut p = Poller::new();
    let t = p.register(3);
    p.poll(VecDeque::from(vec![done(t, 5)]));
    assert_eq!(p.get_addr_result(t), None);
    assert_eq!(p.get_result(t), None);
}

#[test]
fn addr_result_with_a_foreign_family_reports_it() {
    let mut p = Poller::new();
    let t = p.register(3);
    let storage = SockAddrStorage::from_parts(1, vec![0u8; 126]).unwrap();
    p.poll(VecDeque::from(vec![Completion { user_data: t, result: 0, addr: Some((storage, 110)) }]));
    assert_eq!(p.get_addr_result(t), Some((0, Err(AddrError::InvalidFamily))));
}

#[test]
fn dropped_request_is_forgotten() {
    let mut p = Poller::new();
    let t = p.register(4);
    p.drop_request(t);
    let out = p.poll(VecDeque::from(vec![done(t, 1)]));
    assert!(out.wakers.is_empty());
    assert_eq!(p.get_result(t), None);
}
