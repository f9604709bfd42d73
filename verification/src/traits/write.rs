//! Writing out part of an owned buffer.
//!
//! `write_all` writes a buffer out by repeated writes, each of the part not
//! written yet: a `Slice` from the bytes written so far to the end (its
//! progress is kept by `traits::Progress`).
use super::IoBuf;
use vstd::prelude::*;

verus! {

/// The part `start..end` of an owned buffer.
pub struct Slice<T> {
    inner: T,
    start: usize,
    end: usize,
}

impl<T> Slice<T> {
    #[verifier::type_invariant]
    spec fn well_formed(self) -> bool {
        self.start <= self.end
    }

    pub closed spec fn spec_inner(self) -> T {
        self.inner
    }

    pub closed spec fn spec_start(self) -> usize {
        self.start
    }

    pub closed spec fn spec_end(self) -> usize {
        self.end
    }

    /// The part `start..end` of `inner`.
    pub fn new(inner: T, start: usize, end: usize) -> (s: Self)
        requires
            start <= end,
        ensures
            s.spec_inner() == inner,
            s.spec_start() == start,
            s.spec_end() == end,
    {
        Slice { inner, start, end }
    }

    /// Gives the whole buffer back.
    pub fn into_inner(self) -> (inner: T)
        ensures
            inner == self.spec_inner(),
    {
        self.inner
    }

    pub fn start(&self) -> (start: usize)
        ensures
            start == self.spec_start(),
            start <= self.spec_end(),
    {
        proof {
            use_type_invariant(self);
        }
        self.start
    }

    pub fn end(&self) -> (end: usize)
        ensures
            end == self.spec_end(),
    {
        self.end
    }

    pub fn get_ref(&self) -> (inner: &T)
        ensures
            *inner == self.spec_inner(),
    {
        &self.inner
    }
}

impl<T: IoBuf> IoBuf for Slice<T> {
    open spec fn spec_bytes_init(&self) -> nat {
        (self.spec_end() - self.spec_start()) as nat
    }

    /// The length of the part.
    fn bytes_init(&self) -> (n: usize) {
        proof {
            use_type_invariant(self);
        }
        self.end - self.start
    }
}

} // verus!
