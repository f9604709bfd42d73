//! Owned I/O buffers, and the progress of operations that must move a whole
//! buffer (`read_exact`, `write_all`) through repeated partial transfers.
pub mod read;
pub mod write;

use vstd::prelude::*;

verus! {

/// A buffer whose initialized bytes can be written out.
pub trait IoBuf {
    spec fn spec_bytes_init(&self) -> nat;

    /// The number of initialized bytes.
    fn bytes_init(&self) -> (n: usize)
        ensures
            n == self.spec_bytes_init(),
    ;
}

/// A buffer that can be read into.
pub trait IoBufMut {
    /// The number of bytes it can take.
    fn bytes_total(&self) -> usize;
}

/// `Vec::capacity`: the number of elements the vector can hold without
/// reallocating, never less than its length. What the allocator gave beyond
/// the length is left unsaid.
#[verifier::external_body]
fn vec_capacity(v: &Vec<u8>) -> (cap: usize)
    ensures
        cap >= v@.len(),
{
    v.capacity()
}

impl IoBuf for Vec<u8> {
    open spec fn spec_bytes_init(&self) -> nat {
        self@.len()
    }

    fn bytes_init(&self) -> (n: usize)
        ensures
            n == self@.len(),
    {
        self.len()
    }
}

impl IoBuf for &'static [u8] {
    open spec fn spec_bytes_init(&self) -> nat {
        self@.len()
    }

    fn bytes_init(&self) -> (n: usize)
        ensures
            n == self@.len(),
    {
        self.len()
    }
}

impl<const N: usize> IoBuf for &'static [u8; N] {
    open spec fn spec_bytes_init(&self) -> nat {
        N as nat
    }

    fn bytes_init(&self) -> (n: usize)
        ensures
            n == N,
    {
        N
    }
}

/// The initialized bytes of a vector, a slice or an array are all of its
/// elements: a whole-buffer write covers every one of them.
pub proof fn lemma_bytes_init_is_length<const N: usize>(v: Vec<u8>, s: &'static [u8], a: &'static [u8; N])
    ensures
        v.spec_bytes_init() == v@.len(),
        s.spec_bytes_init() == s@.len(),
        a.spec_bytes_init() == N,
{
}

/// A vector can take as many bytes as its capacity, which is never less than
/// its length; how much more the allocator gave is not known here.
impl IoBufMut for Vec<u8> {
    fn bytes_total(&self) -> (n: usize)
        ensures
            n >= self@.len(),
    {
        vec_capacity(self)
    }
}

/// What one partial transfer did to the progress.
#[derive(Clone, Copy, Debug, PartialEq, Eq)]
pub enum Advance {
    /// Bytes moved; some are still to go.
    Continue,
    /// Bytes moved; the whole buffer has been transferred.
    Finished,
    /// No byte moved: end of file on a read, a refused write on a write.
    Stalled,
}

/// How many bytes of a buffer have been transferred, out of how many.
pub struct Progress {
    done: usize,
    total: usize,
}

impl Progress {
    pub closed spec fn spec_done(&self) -> nat {
        self.done as nat
    }

    pub closed spec fn spec_total(&self) -> nat {
        self.total as nat
    }

    /// Both counts fit in a `usize`; so a transfer of at most the bytes still
    /// to go meets the bound of `advance`.
    pub proof fn lemma_counts_fit(&self, n: nat)
        ensures
            self.spec_done() <= usize::MAX,
            self.spec_total() <= usize::MAX,
            self.spec_done() <= self.spec_total() && n <= self.spec_total() - self.spec_done()
                ==> self.spec_done() + n <= usize::MAX,
    {
    }

    /// Nothing transferred yet out of `total`.
    pub fn new(total: usize) -> (p: Self)
        ensures
            p.spec_done() == 0,
            p.spec_total() == total,
    {
        Progress { done: 0, total }
    }

    pub fn done(&self) -> (d: usize)
        ensures
            d == self.spec_done(),
            self.spec_done() <= usize::MAX,
    {
        self.done
    }

    pub fn total(&self) -> (t: usize)
        ensures
            t == self.spec_total(),
            self.spec_total() <= usize::MAX,
    {
        self.total
    }

    /// Whether the whole buffer has been transferred.
    pub fn is_complete(&self) -> (b: bool)
        ensures
            b == (self.spec_done() >= self.spec_total()),
    {
        self.done >= self.total
    }

    /// Records a partial transfer of `n` bytes.
    pub fn advance(&mut self, n: usize) -> (r: Advance)
        requires
            old(self).spec_done() + n <= usize::MAX,
        ensures
            final(self).spec_total() == old(self).spec_total(),
            final(self).spec_done() == old(self).spec_done() + n,
            n == 0 ==> r == Advance::Stalled,
            n > 0 && final(self).spec_done() >= final(self).spec_total() ==> r == Advance::Finished,
            n > 0 && final(self).spec_done() < final(self).spec_total() ==> r == Advance::Continue,
    {
        if n == 0 {
            return Advance::Stalled;
        }
        self.done = self.done + n;
        if self.done >= self.total {
            Advance::Finished
        } else {
            Advance::Continue
        }
    }
}

} // verus!
