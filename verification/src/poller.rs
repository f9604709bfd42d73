//! The completion table of the `io_uring` poller.
//!
//! Every submitted operation is registered with the handle of the waker to
//! call when it completes; the slab key it gets is the `user_data` of the
//! submission entry. When the ring reports completions, each one that belongs
//! to a registered operation releases its waker and leaves its result (and,
//! for `recvmsg`, the peer address) to be collected once by the future that
//! submitted it. The wake-up eventfd's own completions carry `WAKE_TOKEN`.
use crate::addr::{socket_addr_from_storage, decodes_to, AddrError, SockAddr, SockAddrStorage};
use slab::Slab;
use std::collections::HashMap;
use std::collections::VecDeque;
use vstd::prelude::*;

verus! {

broadcast use vstd::std_specs::hash::group_hash_axioms;

/// `user_data` of the multishot poll on the wake-up eventfd.
pub const WAKE_TOKEN: u64 = 0xffff_ffff_ffff_ffff;

/// Number of submission entries the ring is created with; the waker slab is
/// preallocated to the same size.
pub const RING_ENTRIES: u32 = 512;

#[verifier::external_type_specification]
#[verifier::external_body]
#[verifier::reject_recursive_types(T)]
pub struct ExSlab<T>(Slab<T>);

/// What a slab of waker handles holds: each occupied key and its handle.
pub uninterp spec fn slab_entries(s: Slab<u64>) -> Map<usize, u64>;

/// `Slab::with_capacity`: a slab with no occupied key (the source builds it
/// from an empty `Vec` and a zero length).
#[verifier::external_body]
fn slab_with_capacity(capacity: usize) -> (slab: Slab<u64>)
    requires
        capacity <= 4096,
    ensures
        slab_entries(slab) =~= Map::empty(),
{
    Slab::with_capacity(capacity)
}

/// `Slab::insert`: stores the handle under a key that was vacant and returns
/// that key. The key is the slab's `next`, which is at most the length of its
/// entry vector, itself below `usize::MAX` since the vector's allocation is
/// bounded by `isize::MAX` bytes. Which vacant key is chosen is left unsaid.
#[verifier::external_body]
fn slab_insert(s: &mut Slab<u64>, handle: u64) -> (key: usize)
    ensures
        !slab_entries(*old(s)).contains_key(key),
        slab_entries(*final(s)) == slab_entries(*old(s)).insert(key, handle),
        key < usize::MAX,
{
    s.insert(handle)
}

/// `Slab::try_remove`: takes the handle out if the key is occupied and leaves
/// the slab untouched otherwise.
#[verifier::external_body]
fn slab_try_remove(s: &mut Slab<u64>, key: usize) -> (r: Option<u64>)
    ensures
        match r {
            Some(h) => {
                &&& slab_entries(*old(s)).contains_key(key)
                &&& h == slab_entries(*old(s))[key]
                &&& slab_entries(*final(s)) == slab_entries(*old(s)).remove(key)
            },
            None => {
                &&& !slab_entries(*old(s)).contains_key(key)
                &&& slab_entries(*final(s)) == slab_entries(*old(s))
            },
        },
{
    s.try_remove(key)
}

/// One entry of the completion queue, as read off the ring: its `user_data`,
/// its result, and for a `recvmsg` the address buffer the kernel filled in.
pub struct Completion {
    pub user_data: u64,
    pub result: i32,
    pub addr: Option<(SockAddrStorage, u32)>,
}

/// What the poller holds, as maps.
pub struct PollerView {
    /// Operations in flight: slab key to waker handle.
    pub wakers: Map<usize, u64>,
    /// Results of completed operations not yet collected.
    pub results: Map<u64, i32>,
    /// Peer addresses of completed `recvmsg` operations not yet collected.
    pub addrs: Map<u64, (SockAddrStorage, u32)>,
}

/// The bookkeeping half of the poller: registered wakers and completed results.
pub struct Poller {
    wakers: Slab<u64>,
    results: HashMap<u64, i32>,
    addrs: HashMap<u64, (SockAddrStorage, u32)>,
}

/// What one completion does to the poller: the new state, the handles to
/// wake, and how many eventfd wake-ups it carried.
pub open spec fn completion_step(s: PollerView, c: Completion) -> (PollerView, Seq<u64>, nat) {
    if c.user_data == WAKE_TOKEN {
        (s, Seq::empty(), 1)
    } else if s.wakers.contains_key(c.user_data as usize) {
        let key = #[verifier::truncate] (c.user_data as usize);
        let addrs = match c.addr {
            Some(a) => s.addrs.insert(c.user_data, a),
            None => s.addrs,
        };
        (
            PollerView {
                wakers: s.wakers.remove(key),
                results: s.results.insert(c.user_data, c.result),
                addrs,
            },
            seq![s.wakers[key]],
            0,
        )
    } else {
        (s, Seq::empty(), 0)
    }
}

/// Completions applied in the order the ring delivered them.
pub open spec fn completions_step(s: PollerView, cs: Seq<Completion>) -> (
    PollerView,
    Seq<u64>,
    nat,
)
    decreases cs.len(),
{
    if cs.len() == 0 {
        (s, Seq::empty(), 0)
    } else {
        let (s1, w1, n1) = completions_step(s, cs.drop_last());
        let (s2, w2, n2) = completion_step(s1, cs.last());
        (s2, w1 + w2, n1 + n2)
    }
}

/// `after` is `before` with a fresh operation registered under `user_data`.
pub open spec fn registered(before: PollerView, after: PollerView, user_data: u64, waker: u64) -> bool {
    &&& user_data != WAKE_TOKEN
    &&& user_data as usize as u64 == user_data
    &&& !before.wakers.contains_key(user_data as usize)
    &&& after.wakers == before.wakers.insert(user_data as usize, waker)
    &&& after.results == before.results
    &&& after.addrs == before.addrs
}

/// `after` is `before` with the result of `user_data` taken out.
pub open spec fn collected(before: PollerView, after: PollerView, user_data: u64) -> bool {
    &&& after.wakers == before.wakers
    &&& after.results == before.results.remove(user_data)
    &&& after.addrs == before.addrs
}

/// An operation registered with a waker and then completed wakes exactly that
/// waker and leaves exactly its result to collect; collecting it takes it out.
pub proof fn lemma_register_complete_collect(
    p0: PollerView,
    p1: PollerView,
    user_data: u64,
    waker: u64,
    result: i32,
)
    requires
        registered(p0, p1, user_data, waker),
    ensures
        ({
            let c = Completion { user_data, result, addr: None };
            let (p2, woken, wakeups) = completion_step(p1, c);
            &&& woken == seq![waker]
            &&& wakeups == 0
            &&& p2.wakers == p0.wakers
            &&& p2.results == p1.results.insert(user_data, result)
            &&& p2.results[user_data] == result
            &&& !p2.results.remove(user_data).contains_key(user_data)
        }),
{
    assert(p1.wakers.remove(user_data as usize) =~= p0.wakers);
}

/// A completion of a registered operation wakes its waker, records its
/// result, and, when it carries a peer address (a `recvmsg`), leaves exactly
/// that address to collect under its `user_data`, whatever the address is;
/// nothing else in the table changes.
pub proof fn lemma_completion_records_result_and_addr(s: PollerView, c: Completion)
    requires
        c.user_data != WAKE_TOKEN,
        s.wakers.contains_key(c.user_data as usize),
    ensures
        completion_step(s, c).1 == seq![s.wakers[c.user_data as usize]],
        completion_step(s, c).2 == 0,
        completion_step(s, c).0.wakers == s.wakers.remove(c.user_data as usize),
        completion_step(s, c).0.results == s.results.insert(c.user_data, c.result),
        c.addr matches Some(a) ==> completion_step(s, c).0.addrs == s.addrs.insert(c.user_data, a),
        c.addr is None ==> completion_step(s, c).0.addrs == s.addrs,
{
}

/// An operation registered, then completed with a peer address, leaves that
/// result and that address to collect together: reading the address back
/// gives the one the kernel wrote, for either family.
pub proof fn lemma_register_complete_with_addr(
    p0: PollerView,
    p1: PollerView,
    user_data: u64,
    waker: u64,
    result: i32,
    storage: SockAddrStorage,
    len: u32,
)
    requires
        registered(p0, p1, user_data, waker),
    ensures
        ({
            let c = Completion { user_data, result, addr: Some((storage, len)) };
            let (p2, woken, wakeups) = completion_step(p1, c);
            &&& woken == seq![waker]
            &&& wakeups == 0
            &&& p2.results.contains_key(user_data)
            &&& p2.results[user_data] == result
            &&& p2.addrs.contains_key(user_data)
            &&& p2.addrs[user_data] == (storage, len)
        }),
{
}

/// A wake-up of the eventfd wakes no task and changes nothing; a completion
/// whose `user_data` is not registered is ignored.
pub proof fn lemma_foreign_completions_are_inert(s: PollerView, c: Completion)
    requires
        c.user_data == WAKE_TOKEN || !s.wakers.contains_key(c.user_data as usize),
    ensures
        completion_step(s, c).0 == s,
        completion_step(s, c).1 == Seq::<u64>::empty(),
        completion_step(s, c).2 == (if c.user_data == WAKE_TOKEN { 1nat } else { 0nat }),
{
}

/// The handles to wake and the number of eventfd wake-ups in one batch of
/// completions.
pub struct PollOutcome {
    pub wakers: Vec<u64>,
    pub wakeups: usize,
}

impl Poller {
    pub closed spec fn view(&self) -> PollerView {
        PollerView { wakers: slab_entries(self.wakers), results: self.results@, addrs: self.addrs@ }
    }

    /// An empty table, with room for one waker per ring entry.
    pub fn new() -> (p: Self)
        ensures
            p.view().wakers == Map::<usize, u64>::empty(),
            p.view().results == Map::<u64, i32>::empty(),
            p.view().addrs == Map::<u64, (SockAddrStorage, u32)>::empty(),
    {
        let entries: usize = RING_ENTRIES as usize;
        Poller { wakers: slab_with_capacity(entries), results: HashMap::new(), addrs: HashMap::new() }
    }

    /// Registers an operation about to be submitted, with the waker to call on
    /// its completion; returns the `user_data` to put on its submission entry.
    pub fn register(&mut self, waker: u64) -> (user_data: u64)
        ensures
            registered(old(self).view(), final(self).view(), user_data, waker),
    {
        let key = slab_insert(&mut self.wakers, waker);
        key as u64
    }

    /// Applies a batch of completions in order: each one for a registered
    /// operation releases its waker and records its result (and address);
    /// wake-up tokens are counted; any other completion is ignored.
    pub fn poll(&mut self, completions: VecDeque<Completion>) -> (r: PollOutcome)
        ensures
            ({
                let (s, w, n) = completions_step(old(self).view(), completions@);
                &&& final(self).view() == s
                &&& r.wakers@ == w
                &&& r.wakeups == n
            }),
    {
        let ghost all = completions@;
        let ghost start = self.view();
        let mut rest = completions;
        let mut wakers: Vec<u64> = Vec::new();
        let mut wakeups: usize = 0;
        let mut i: usize = 0;
        let total = rest.len();
        while rest.len() > 0
            invariant
                all.len() == total,
                i <= all.len(),
                rest@ == all.subrange(i as int, all.len() as int),
                ({
                    let (s, w, n) = completions_step(start, all.take(i as int));
                    &&& self.view() == s
                    &&& wakers@ == w
                    &&& wakeups == n
                }),
                wakeups <= i,
            decreases rest@.len(),
        {
            let c = rest.pop_front().unwrap();
            let ghost prev = wakers@;
            proof {
                assert(all.take(i + 1).drop_last() =~= all.take(i as int));
                assert(all.take(i + 1).last() == all[i as int]);
            }
            if c.user_data == WAKE_TOKEN {
                wakeups = wakeups + 1;
            } else {
                let key = #[verifier::truncate] (c.user_data as usize);
                match slab_try_remove(&mut self.wakers, key) {
                    Some(w) => {
                        wakers.push(w);
                        self.results.insert(c.user_data, c.result);
                        match c.addr {
                            Some(a) => {
                                self.addrs.insert(c.user_data, a);
                            },
                            None => {},
                        }
                        proof {
                            assert(wakers@ =~= prev + seq![w]);
                        }
                    },
                    None => {},
                }
            }
            i = i + 1;
        }
        proof {
            assert(all.take(i as int) =~= all);
        }
        PollOutcome { wakers, wakeups }
    }

    /// Collects the result of a completed operation; each result is handed
    /// out once.
    pub fn get_result(&mut self, user_data: u64) -> (r: Option<i32>)
        ensures
            r == (if old(self).view().results.contains_key(user_data) {
                Some(old(self).view().results[user_data])
            } else {
                None::<i32>
            }),
            collected(old(self).view(), final(self).view(), user_data),
    {
        self.results.remove(&user_data)
    }

    /// Collects the result and peer address of a completed `recvmsg`: `None`
    /// if there is no result yet, or a result but no address (the result is
    /// taken all the same). The address is read as the storage image says.
    pub fn get_addr_result(&mut self, user_data: u64) -> (r: Option<(i32, Result<SockAddr, AddrError>)>)
        ensures
            final(self).view().wakers == old(self).view().wakers,
            final(self).view().results == old(self).view().results.remove(user_data),
            !old(self).view().results.contains_key(user_data) ==> {
                &&& r is None
                &&& final(self).view().addrs == old(self).view().addrs
            },
            old(self).view().results.contains_key(user_data) ==> {
                &&& final(self).view().addrs == old(self).view().addrs.remove(user_data)
                &&& (r is Some <==> old(self).view().addrs.contains_key(user_data))
            },
            r matches Some((res, addr)) ==> {
                let (storage, _len) = old(self).view().addrs[user_data];
                &&& res == old(self).view().results[user_data]
                &&& decodes_to(storage.spec_family(), storage.spec_data(), addr)
            },
    {
        let result = match self.results.remove(&user_data) {
            Some(res) => res,
            None => {
                return None;
            },
        };
        let (storage, len) = match self.addrs.remove(&user_data) {
            Some(a) => a,
            None => {
                return None;
            },
        };
        let addr = socket_addr_from_storage(&storage, len);
        Some((result, addr))
    }

    /// Forgets an operation whose future was dropped before it completed: its
    /// waker, and any result or address already recorded for it.
    pub fn drop_request(&mut self, user_data: u64)
        ensures
            final(self).view().wakers == old(self).view().wakers.remove(user_data as usize),
            final(self).view().results == old(self).view().results.remove(user_data),
            final(self).view().addrs == old(self).view().addrs.remove(user_data),
    {
        let _ = slab_try_remove(&mut self.wakers, #[verifier::truncate] (user_data as usize));
        let _ = self.results.remove(&user_data);
        let _ = self.addrs.remove(&user_data);
    }

    /// Whether a peer address is waiting for this operation.
    pub fn has_addr(&self, user_data: u64) -> (b: bool)
        ensures
            b == self.view().addrs.contains_key(user_data),
    {
        self.addrs.contains_key(&user_data)
    }

    /// Whether a result is waiting for this operation.
    pub fn has_result(&self, user_data: u64) -> (b: bool)
        ensures
            b == self.view().results.contains_key(user_data),
    {
        self.results.contains_key(&user_data)
    }
}

} // verus!
