//! The pending read of the next value of a stream.
use vstd::prelude::*;
use core::marker::PhantomData;

verus! {

/// A read, still to be answered, of the next event of `stream` as a `T`.
pub struct Next<'a, St: ?Sized, T> {
    pub stream: &'a mut St,
    pub marker: PhantomData<T>,
}

impl<'a, St, T> Next<'a, St, T> {
    pub fn new(stream: &'a mut St) -> (r: Self)
        ensures
            *r.stream == *old(stream),
            *final(stream) == *final(r.stream),
    {
        Next { stream, marker: PhantomData }
    }
}

} // verus!
