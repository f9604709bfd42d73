//! The state machines of the I/O futures.
//!
//! An I/O future is first polled unsubmitted: it registers its operation with
//! the poller and asks its caller to push the submission entry. The next poll
//! collects the result. The futures made by the proactor (`read`, `write`,
//! `recv_from`, `send_to`) are polled again only once their task is woken,
//! and expect the result to be there; the futures of the TCP types
//! (`FutureState`) stay pending until it is.
use crate::addr::{decodes_to, AddrError, SockAddr};
use crate::poller::{collected, registered, Poller};
use crate::proactor::Proactor;
use vstd::prelude::*;

verus! {

/// What polling an I/O future asks of its caller.
#[derive(Clone, Copy, Debug, PartialEq, Eq)]
pub enum OpPoll {
    /// Push the operation's submission entry with this `user_data`; the future
    /// is pending.
    Submit(u64),
    /// The operation has not completed: the future is pending.
    Pending,
    /// The operation completed with this result.
    Ready(i32),
}

/// What polling a `recv_from` future asks of its caller.
#[derive(Clone, Copy, Debug, PartialEq, Eq)]
pub enum RecvPoll {
    /// Push the `recvmsg` entry with this `user_data`; the future is pending.
    Submit(u64),
    /// The operation completed with this result, from this peer.
    Ready(i32, Result<SockAddr, AddrError>),
}

/// State of a read future.
#[derive(Clone, Copy, Debug, PartialEq, Eq)]
pub enum ReadState {
    Unsubmitted,
    /// Submitted with this `user_data`.
    Pending(u64),
    Done,
}

/// State of a write future.
#[derive(Clone, Copy, Debug, PartialEq, Eq)]
pub enum WriteState {
    Unsubmitted,
    /// Submitted with this `user_data`.
    Pending(u64),
    Done,
}

/// State of a `recv_from` future.
#[derive(Clone, Copy, Debug, PartialEq, Eq)]
pub enum RecvFromState {
    Unsubmitted,
    /// Submitted with this `user_data`.
    Pending(u64),
    Done,
}

/// State of a `send_to` future.
#[derive(Clone, Copy, Debug, PartialEq, Eq)]
pub enum SendToState {
    Unsubmitted,
    /// Submitted with this `user_data`.
    Pending(u64),
    Done,
}

/// State of the futures of the TCP types.
#[derive(Clone, Copy, Debug, PartialEq, Eq)]
pub enum FutureState {
    Unsubmitted,
    /// Submitted with this `user_data`.
    Pending(u64),
    Done,
}

/// The unified view of the states above: `None` before submission,
/// `Some(Some(t))` while pending on `t`, `Some(None)` when done.
pub open spec fn phase_read(s: ReadState) -> Option<Option<u64>> {
    match s {
        ReadState::Unsubmitted => None,
        ReadState::Pending(t) => Some(Some(t)),
        ReadState::Done => Some(None),
    }
}

pub open spec fn phase_write(s: WriteState) -> Option<Option<u64>> {
    match s {
        WriteState::Unsubmitted => None,
        WriteState::Pending(t) => Some(Some(t)),
        WriteState::Done => Some(None),
    }
}

pub open spec fn phase_send_to(s: SendToState) -> Option<Option<u64>> {
    match s {
        SendToState::Unsubmitted => None,
        SendToState::Pending(t) => Some(Some(t)),
        SendToState::Done => Some(None),
    }
}

/// One poll of a future that expects its result once woken: a first poll
/// registers and submits, a second collects.
pub open spec fn oneshot_poll(
    before: Option<Option<u64>>,
    after: Option<Option<u64>>,
    r: OpPoll,
    p0: crate::poller::PollerView,
    p1: crate::poller::PollerView,
    waker: u64,
) -> bool {
    match before {
        None => r matches OpPoll::Submit(t) && after == Some(Some(t)) && registered(p0, p1, t, waker),
        Some(Some(t)) => r == OpPoll::Ready(p0.results[t]) && after == Some(None::<u64>) && collected(
            p0,
            p1,
            t,
        ),
        Some(None) => false,
    }
}

/// What a oneshot future needs to be polled: not done, and its result there
/// if it is pending.
pub open spec fn oneshot_ready(s: Option<Option<u64>>, p: crate::poller::PollerView) -> bool {
    match s {
        None => true,
        Some(Some(t)) => p.results.contains_key(t),
        Some(None) => false,
    }
}

/// Polling a submitted oneshot future hands back exactly the result its
/// completion recorded (whatever it is, 0 included), takes that result out,
/// and leaves the future done; nothing else changes in the poller.
pub proof fn lemma_oneshot_pending_returns_result(
    t: u64,
    after: Option<Option<u64>>,
    r: OpPoll,
    p0: crate::poller::PollerView,
    p1: crate::poller::PollerView,
    waker: u64,
)
    requires
        oneshot_poll(Some(Some(t)), after, r, p0, p1, waker),
    ensures
        r == OpPoll::Ready(p0.results[t]),
        after == Some(None::<u64>),
        p1.results == p0.results.remove(t),
        p1.wakers == p0.wakers,
        p1.addrs == p0.addrs,
{
}

/// Polling an unsubmitted oneshot future registers its waker under a fresh
/// `user_data` (never the wake token) and asks for that entry to be submitted;
/// the future is then pending on it.
pub proof fn lemma_oneshot_first_poll_submits(
    after: Option<Option<u64>>,
    r: OpPoll,
    p0: crate::poller::PollerView,
    p1: crate::poller::PollerView,
    waker: u64,
)
    requires
        oneshot_poll(None, after, r, p0, p1, waker),
    ensures
        exists|t: u64|
            {
                &&& r == OpPoll::Submit(t)
                &&& after == Some(Some(t))
                &&& t != crate::poller::WAKE_TOKEN
                &&& !p0.wakers.contains_key(t as usize)
                &&& p1.wakers == p0.wakers.insert(t as usize, waker)
                &&& p1.results == p0.results
            },
{
    let t = r->Submit_0;
    assert(r == OpPoll::Submit(t));
}

impl ReadState {
    /// Polls a read: submits it, or collects its result.
    pub fn poll(&mut self, poller: &mut Poller, waker: u64) -> (r: OpPoll)
        requires
            oneshot_ready(phase_read(*old(self)), old(poller).view()),
        ensures
            *old(self) matches ReadState::Pending(t) ==> {
                &&& r == OpPoll::Ready(old(poller).view().results[t])
                &&& *final(self) == ReadState::Done
                &&& final(poller).view().results == old(poller).view().results.remove(t)
            },
            (*old(self) is Unsubmitted) ==> (r matches OpPoll::Submit(t) && *final(self) == ReadState::Pending(t)),
            oneshot_poll(
                phase_read(*old(self)),
                phase_read(*final(self)),
                r,
                old(poller).view(),
                final(poller).view(),
                waker,
            ),
    {
        match *self {
            ReadState::Unsubmitted => {
                let token = poller.register(waker);
                *self = ReadState::Pending(token);
                OpPoll::Submit(token)
            },
            ReadState::Pending(token) => {
                *self = ReadState::Done;
                match poller.get_result(token) {
                    Some(res) => OpPoll::Ready(res),
                    None => OpPoll::Pending,
                }
            },
            ReadState::Done => OpPoll::Pending,
        }
    }
}

impl WriteState {
    /// Polls a write: submits it, or collects its result.
    pub fn poll(&mut self, poller: &mut Poller, waker: u64) -> (r: OpPoll)
        requires
            oneshot_ready(phase_write(*old(self)), old(poller).view()),
        ensures
            *old(self) matches WriteState::Pending(t) ==> {
                &&& r == OpPoll::Ready(old(poller).view().results[t])
                &&& *final(self) == WriteState::Done
                &&& final(poller).view().results == old(poller).view().results.remove(t)
            },
            (*old(self) is Unsubmitted) ==> (r matches OpPoll::Submit(t) && *final(self) == WriteState::Pending(t)),
            oneshot_poll(
                phase_write(*old(self)),
                phase_write(*final(self)),
                r,
                old(poller).view(),
                final(poller).view(),
                waker,
            ),
    {
        match *self {
            WriteState::Unsubmitted => {
                let token = poller.register(waker);
                *self = WriteState::Pending(token);
                OpPoll::Submit(token)
            },
            WriteState::Pending(token) => {
                *self = WriteState::Done;
                match poller.get_result(token) {
                    Some(res) => OpPoll::Ready(res),
                    None => OpPoll::Pending,
                }
            },
            WriteState::Done => OpPoll::Pending,
        }
    }
}

impl SendToState {
    /// Polls a `send_to`: submits it, or collects its result.
    pub fn poll(&mut self, poller: &mut Poller, waker: u64) -> (r: OpPoll)
        requires
            oneshot_ready(phase_send_to(*old(self)), old(poller).view()),
        ensures
            *old(self) matches SendToState::Pending(t) ==> {
                &&& r == OpPoll::Ready(old(poller).view().results[t])
                &&& *final(self) == SendToState::Done
                &&& final(poller).view().results == old(poller).view().results.remove(t)
            },
            (*old(self) is Unsubmitted) ==> (r matches OpPoll::Submit(t) && *final(self) == SendToState::Pending(t)),
            oneshot_poll(
                phase_send_to(*old(self)),
                phase_send_to(*final(self)),
                r,
                old(poller).view(),
                final(poller).view(),
                waker,
            ),
    {
        match *self {
            SendToState::Unsubmitted => {
                let token = poller.register(waker);
                *self = SendToState::Pending(token);
                OpPoll::Submit(token)
            },
            SendToState::Pending(token) => {
                *self = SendToState::Done;
                match poller.get_result(token) {
                    Some(res) => OpPoll::Ready(res),
                    None => OpPoll::Pending,
                }
            },
            SendToState::Done => OpPoll::Pending,
        }
    }
}

impl RecvFromState {
    /// Polls a `recv_from`: submits it, or collects its result and peer address.
    pub fn poll(&mut self, poller: &mut Poller, waker: u64) -> (r: RecvPoll)
        requires
            !(*old(self) is Done),
            *old(self) matches RecvFromState::Pending(t) ==> {
                &&& old(poller).view().results.contains_key(t)
                &&& old(poller).view().addrs.contains_key(t)
            },
        ensures
            *old(self) is Unsubmitted ==> (r matches RecvPoll::Submit(t) && *final(self)
                == RecvFromState::Pending(t) && registered(
                old(poller).view(),
                final(poller).view(),
                t,
                waker,
            )),
            *old(self) matches RecvFromState::Pending(t) ==> {
                let (storage, _len) = old(poller).view().addrs[t];
                &&& r matches RecvPoll::Ready(res, addr) && res == old(poller).view().results[t]
                    && decodes_to(storage.spec_family(), storage.spec_data(), addr)
                &&& *final(self) == RecvFromState::Done
                &&& final(poller).view().wakers == old(poller).view().wakers
                &&& final(poller).view().results == old(poller).view().results.remove(t)
                &&& final(poller).view().addrs == old(poller).view().addrs.remove(t)
            },
    {
        match *self {
            RecvFromState::Unsubmitted => {
                let token = poller.register(waker);
                *self = RecvFromState::Pending(token);
                RecvPoll::Submit(token)
            },
            RecvFromState::Pending(token) => {
                *self = RecvFromState::Done;
                match poller.get_addr_result(token) {
                    Some((res, addr)) => RecvPoll::Ready(res, addr),
                    None => RecvPoll::Ready(0, Err(AddrError::InvalidFamily)),
                }
            },
            RecvFromState::Done => RecvPoll::Ready(0, Err(AddrError::InvalidFamily)),
        }
    }
}

impl FutureState {
    /// Polls a TCP future: submits it, or collects its result if it is there
    /// and stays pending otherwise.
    pub fn poll(&mut self, poller: &mut Poller, waker: u64) -> (r: OpPoll)
        requires
            !(*old(self) is Done),
        ensures
            (r is Submit) == (*old(self) is Unsubmitted),
            !(*final(self) is Unsubmitted),
            *old(self) is Unsubmitted ==> (r matches OpPoll::Submit(t) && *final(self)
                == FutureState::Pending(t) && registered(
                old(poller).view(),
                final(poller).view(),
                t,
                waker,
            )),
            *old(self) matches FutureState::Pending(t) ==> if old(poller).view().results.contains_key(
                t,
            ) {
                &&& r == OpPoll::Ready(old(poller).view().results[t])
                &&& *final(self) == FutureState::Done
                &&& collected(old(poller).view(), final(poller).view(), t)
            } else {
                &&& r == OpPoll::Pending
                &&& *final(self) == *old(self)
                &&& final(poller).view() == old(poller).view()
            },
    {
        match *self {
            FutureState::Unsubmitted => {
                let token = poller.register(waker);
                *self = FutureState::Pending(token);
                OpPoll::Submit(token)
            },
            FutureState::Pending(token) => {
                match poller.get_result(token) {
                    Some(res) => {
                        *self = FutureState::Done;
                        OpPoll::Ready(res)
                    },
                    None => {
                        proof {
                            assert(old(poller).view().results.remove(token) =~= old(
                                poller,
                            ).view().results);
                        }
                        OpPoll::Pending
                    },
                }
            },
            FutureState::Done => OpPoll::Pending,
        }
    }
}

/// What a TCP read or write completion means: a negative result is an error
/// code, passed on as the completion gave it; otherwise the byte count.
pub fn stream_io_outcome(res: i32) -> (r: Result<usize, i32>)
    ensures
        res < 0 ==> r == Err::<usize, i32>(res),
        res >= 0 ==> r == Ok::<usize, i32>(res as usize),
{
    if res < 0 {
        Err(res)
    } else {
        Ok(res as usize)
    }
}

/// What an accept completion means: a negative result is minus the error
/// number; otherwise the new socket's descriptor.
pub fn accept_outcome(res: i32) -> (r: Result<i32, i32>)
    requires
        res != i32::MIN,
    ensures
        res < 0 ==> r == Err::<i32, i32>((-res) as i32),
        res >= 0 ==> r == Ok::<i32, i32>(res),
{
    if res < 0 {
        Err(-res)
    } else {
        Ok(res)
    }
}

/// A read of `buf` from the descriptor `fd`.
pub struct ReadFuture<F, B> {
    fd: F,
    buf: B,
    state: ReadState,
}

/// A write of `buf` to the descriptor `fd`.
pub struct WriteFuture<F, B> {
    fd: F,
    buf: B,
    state: WriteState,
}

/// A datagram receive into `buf` from the socket `fd`.
pub struct RecvFromFuture<F, B> {
    fd: F,
    buf: B,
    state: RecvFromState,
}

/// A datagram send of `buf` to `addr` through the socket `fd`.
pub struct SendToFuture<F, B> {
    fd: F,
    buf: B,
    addr: SockAddr,
    state: SendToState,
}

impl<T> Proactor<T> {
    /// A future that reads from `fd` into `buf`.
    pub fn read<F, B>(fd: F, buf: B) -> (f: ReadFuture<F, B>)
        ensures
            f.spec_fd() == fd,
            f.spec_buf() == buf,
            f.spec_state() == ReadState::Unsubmitted,
    {
        ReadFuture { fd, buf, state: ReadState::Unsubmitted }
    }

    /// A future that writes `buf` to `fd`.
    pub fn write<F, B>(fd: F, buf: B) -> (f: WriteFuture<F, B>)
        ensures
            f.spec_fd() == fd,
            f.spec_buf() == buf,
            f.spec_state() == WriteState::Unsubmitted,
    {
        WriteFuture { fd, buf, state: WriteState::Unsubmitted }
    }

    /// A future that receives a datagram from `fd` into `buf`.
    pub fn recv_from<F, B>(fd: F, buf: B) -> (f: RecvFromFuture<F, B>)
        ensures
            f.spec_fd() == fd,
            f.spec_buf() == buf,
            f.spec_state() == RecvFromState::Unsubmitted,
    {
        RecvFromFuture { fd, buf, state: RecvFromState::Unsubmitted }
    }

    /// A future that sends `buf` to `addr` through `fd`.
    pub fn send_to<F, B>(fd: F, buf: B, addr: SockAddr) -> (f: SendToFuture<F, B>)
        ensures
            f.spec_fd() == fd,
            f.spec_buf() == buf,
            f.spec_addr() == addr,
            f.spec_state() == SendToState::Unsubmitted,
    {
        SendToFuture { fd, buf, addr, state: SendToState::Unsubmitted }
    }
}

impl<F, B> ReadFuture<F, B> {
    pub closed spec fn spec_fd(&self) -> F {
        self.fd
    }

    pub closed spec fn spec_buf(&self) -> B {
        self.buf
    }

    pub closed spec fn spec_state(&self) -> ReadState {
        self.state
    }

    pub fn fd(&self) -> (fd: &F)
        ensures
            *fd == self.spec_fd(),
    {
        &self.fd
    }

    pub fn buf_mut(&mut self) -> (buf: &mut B)
        ensures
            *buf == old(self).spec_buf(),
            final(self).spec_buf() == *final(buf),
            final(self).spec_fd() == old(self).spec_fd(),
            final(self).spec_state() == old(self).spec_state(),
    {
        &mut self.buf
    }

    pub fn state(&self) -> (s: ReadState)
        ensures
            s == self.spec_state(),
    {
        self.state
    }

    /// Polls the read: see `ReadState::poll`.
    pub fn poll(&mut self, poller: &mut Poller, waker: u64) -> (r: OpPoll)
        requires
            oneshot_ready(phase_read(old(self).spec_state()), old(poller).view()),
        ensures
            oneshot_poll(
                phase_read(old(self).spec_state()),
                phase_read(final(self).spec_state()),
                r,
                old(poller).view(),
                final(poller).view(),
                waker,
            ),
            final(self).spec_fd() == old(self).spec_fd(),
            final(self).spec_buf() == old(self).spec_buf(),
    {
        self.state.poll(poller, waker)
    }
}

impl<F, B> WriteFuture<F, B> {
    pub closed spec fn spec_fd(&self) -> F {
        self.fd
    }

    pub closed spec fn spec_buf(&self) -> B {
        self.buf
    }

    pub closed spec fn spec_state(&self) -> WriteState {
        self.state
    }

    pub fn fd(&self) -> (fd: &F)
        ensures
            *fd == self.spec_fd(),
    {
        &self.fd
    }

    pub fn buf(&self) -> (buf: &B)
        ensures
            *buf == self.spec_buf(),
    {
        &self.buf
    }

    pub fn state(&self) -> (s: WriteState)
        ensures
            s == self.spec_state(),
    {
        self.state
    }

    /// Polls the write: see `WriteState::poll`.
    pub fn poll(&mut self, poller: &mut Poller, waker: u64) -> (r: OpPoll)
        requires
            oneshot_ready(phase_write(old(self).spec_state()), old(poller).view()),
        ensures
            oneshot_poll(
                phase_write(old(self).spec_state()),
                phase_write(final(self).spec_state()),
                r,
                old(poller).view(),
                final(poller).view(),
                waker,
            ),
            final(self).spec_fd() == old(self).spec_fd(),
            final(self).spec_buf() == old(self).spec_buf(),
    {
        self.state.poll(poller, waker)
    }
}

impl<F, B> RecvFromFuture<F, B> {
    pub closed spec fn spec_fd(&self) -> F {
        self.fd
    }

    pub closed spec fn spec_buf(&self) -> B {
        self.buf
    }

    pub closed spec fn spec_state(&self) -> RecvFromState {
        self.state
    }

    pub fn fd(&self) -> (fd: &F)
        ensures
            *fd == self.spec_fd(),
    {
        &self.fd
    }

    pub fn buf_mut(&mut self) -> (buf: &mut B)
        ensures
            *buf == old(self).spec_buf(),
            final(self).spec_buf() == *final(buf),
            final(self).spec_fd() == old(self).spec_fd(),
            final(self).spec_state() == old(self).spec_state(),
    {
        &mut self.buf
    }

    pub fn state(&self) -> (s: RecvFromState)
        ensures
            s == self.spec_state(),
    {
        self.state
    }

    /// Polls the receive: see `RecvFromState::poll`.
    pub fn poll(&mut self, poller: &mut Poller, waker: u64) -> (r: RecvPoll)
        requires
            !(old(self).spec_state() is Done),
            old(self).spec_state() matches RecvFromState::Pending(t) ==> {
                &&& old(poller).view().results.contains_key(t)
                &&& old(poller).view().addrs.contains_key(t)
            },
        ensures
            old(self).spec_state() is Unsubmitted ==> (r matches RecvPoll::Submit(t)
                && final(self).spec_state() == RecvFromState::Pending(t) && registered(
                old(poller).view(),
                final(poller).view(),
                t,
                waker,
            )),
            old(self).spec_state() matches RecvFromState::Pending(t) ==> {
                let (storage, _len) = old(poller).view().addrs[t];
                &&& r matches RecvPoll::Ready(res, addr) && res == old(poller).view().results[t]
                    && decodes_to(storage.spec_family(), storage.spec_data(), addr)
                &&& final(self).spec_state() == RecvFromState::Done
                &&& final(poller).view().results == old(poller).view().results.remove(t)
                &&& final(poller).view().addrs == old(poller).view().addrs.remove(t)
            },
            final(self).spec_fd() == old(self).spec_fd(),
            final(self).spec_buf() == old(self).spec_buf(),
    {
        self.state.poll(poller, waker)
    }
}

impl<F, B> SendToFuture<F, B> {
    pub closed spec fn spec_fd(&self) -> F {
        self.fd
    }

    pub closed spec fn spec_buf(&self) -> B {
        self.buf
    }

    pub closed spec fn spec_addr(&self) -> SockAddr {
        self.addr
    }

    pub closed spec fn spec_state(&self) -> SendToState {
        self.state
    }

    pub fn fd(&self) -> (fd: &F)
        ensures
            *fd == self.spec_fd(),
    {
        &self.fd
    }

    pub fn buf(&self) -> (buf: &B)
        ensures
            *buf == self.spec_buf(),
    {
        &self.buf
    }

    pub fn addr(&self) -> (addr: SockAddr)
        ensures
            addr == self.spec_addr(),
    {
        self.addr
    }

    pub fn state(&self) -> (s: SendToState)
        ensures
            s == self.spec_state(),
    {
        self.state
    }

    /// Polls the send: see `SendToState::poll`.
    pub fn poll(&mut self, poller: &mut Poller, waker: u64) -> (r: OpPoll)
        requires
            oneshot_ready(phase_send_to(old(self).spec_state()), old(poller).view()),
        ensures
            oneshot_poll(
                phase_send_to(old(self).spec_state()),
                phase_send_to(final(self).spec_state()),
                r,
                old(poller).view(),
                final(poller).view(),
                waker,
            ),
            final(self).spec_fd() == old(self).spec_fd(),
            final(self).spec_buf() == old(self).spec_buf(),
            final(self).spec_addr() == old(self).spec_addr(),
    {
        self.state.poll(poller, waker)
    }
}

} // verus!
