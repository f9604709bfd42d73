//! Reading into part of an owned buffer.
//!
//! `read_exact` fills a buffer by repeated reads, each into the part not
//! filled yet: a `Slice` from the bytes read so far to the end (its progress
//! is kept by `traits::Progress`).
use super::IoBufMut;
use vstd::prelude::*;

verus! {

/// The part `start..end` of an owned buffer.
pub struct Slice<T> {
    inner: T,
    start: usize,
    end: usize,
}

impl<T> Slice<T> {
    #[verifier::type_invariant]
    spec fn well_formed(self) -> bool {
        self.start <= self.end
    }

    pub closed spec fn spec_inner(self) -> T {
        self.inner
    }

    pub closed spec fn spec_start(self) -> usize {
        self.start
    }

    pub closed spec fn spec_end(self) -> usize {
        self.end
    }

    /// The part `start..end` of `inner`.
    pub fn new(inner: T, start: usize, end: usize) -> (s: Self)
        requires
            start <= end,
        ensures
            s.spec_inner() == inner,
            s.spec_start() == start,
            s.spec_end() == end,
    {
        Slice { inner, start, end }
    }

    /// Gives the whole buffer back.
    pub fn into_inner(self) -> (inner: T)
        ensures
            inner == self.spec_inner(),
    {
        self.inner
    }

    pub fn start(&self) -> (start: usize)
        ensures
            start == self.spec_start(),
            start <= self.spec_end(),
    {
        proof {
            use_type_invariant(self);
        }
        self.start
    }

    pub fn end(&self) -> (end: usize)
        ensures
            end == self.spec_end(),
    {
        self.end
    }

    pub fn get_mut(&mut self) -> (inner: &mut T)
        ensures
            *inner == old(self).spec_inner(),
            final(self).spec_inner() == *final(inner),
            final(self).spec_start() == old(self).spec_start(),
            final(self).spec_end() == old(self).spec_end(),
    {
        proof {
            use_type_invariant(&*self);
        }
        borrow_mut(&mut self.inner)
    }
}

fn borrow_mut<X>(x: &mut X) -> (r: &mut X)
    ensures
        *r == *old(x),
        *final(x) == *final(r),
    no_unwind
{
    x
}

impl<T: IoBufMut> IoBufMut for Slice<T> {
    /// The length of the part.
    fn bytes_total(&self) -> (n: usize)
        ensures
            n == self.spec_end() - self.spec_start(),
    {
        proof {
            use_type_invariant(self);
        }
        self.end - self.start
    }
}

} // verus!
