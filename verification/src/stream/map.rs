//! A stream that rewrites each event with what a function makes of it.
use vstd::prelude::*;
use core::marker::PhantomData;
use crate::event::{Event, IntoEvent};

verus! {

/// The events of `stream`, each read as an `In`, handed to `f`, and rewritten
/// with the `Out` that `f` gives; `Fut` is the type of its pending answer.
pub struct Mapped<St, F, In, Out, Fut> {
    pub stream: St,
    pub f: F,
    pub in_marker: PhantomData<In>,
    pub out_marker: PhantomData<Out>,
    pub fut_marker: PhantomData<Fut>,
}

impl<St, F, In, Out, Fut> Mapped<St, F, In, Out, Fut> {
    pub fn new(stream: St, f: F) -> (r: Self)
        ensures
            r.stream == stream,
            r.f == f,
    {
        Mapped {
            stream,
            f,
            in_marker: PhantomData,
            out_marker: PhantomData,
            fut_marker: PhantomData,
        }
    }
}

impl<St, F, In, Out: IntoEvent, Fut> Mapped<St, F, In, Out, Fut> {
    /// The event handed on once `f` answered with `out`: the event as its
    /// reading left it, with `out` written into it.
    pub fn rewrite(e: Event, out: Out) -> (r: Event)
        ensures
            r@ == out.written_into(e@),
    {
        let mut e = e;
        out.into_event(&mut e);
        e
    }
}

} // verus!
