//! Streams of events read from a topic's channel, and the decisions a stream
//! takes between the waits of its reads.
pub mod filter;
pub mod map;
pub mod next;

use vstd::prelude::*;
use crate::event::{Event, FromEvent};
use tokio::sync::broadcast::Receiver;

verus! {

/// What one receive on a topic's channel gave.
pub enum Received {
    /// The next event of the channel.
    Event(Event),
    /// Every sender is gone: no event will come any more.
    Closed,
    /// The receiver fell behind and this many events were lost to it.
    Lagged(u64),
}

/// What a stream does after one step.
pub enum Step {
    /// Hands this event to its reader.
    Emit(Event),
    /// Reads again.
    Again,
    /// Ends: no event will come any more.
    End,
}

/// The stream of the events sent on one topic's channel.
pub struct StreamSource {
    pub rx: Receiver<Event>,
}

impl StreamSource {
    pub fn new(rx: Receiver<Event>) -> (s: StreamSource)
        ensures
            s.rx == rx,
    {
        StreamSource { rx }
    }

    /// The step after a receive: an event is handed on, a closed channel ends
    /// the stream, and a lag is passed over by receiving again.
    pub fn on_received(r: Received) -> (s: Step)
        ensures
            match r {
                Received::Event(e) => s == Step::Emit(e),
                Received::Closed => s is End,
                Received::Lagged(_) => s is Again,
            },
    {
        match r {
            Received::Event(e) => Step::Emit(e),
            Received::Closed => Step::End,
            Received::Lagged(_) => Step::Again,
        }
    }
}

/// Reads a `T` out of the next event of a stream, if there is one.
pub fn read_next<T: FromEvent>(next: Option<Event>) -> (r: Option<T>)
    ensures
        r is None <==> next is None,
        next is Some ==> T::is_read_of(next->0@, r->0),
{
    match next {
        Some(e) => {
            let mut e = e;
            Some(T::from_event(&mut e))
        },
        None => None,
    }
}

/// Reads a `T` out of the next event of a stream, if there is one, and keeps
/// the event, as the read left it, beside it.
pub fn open_next<T: FromEvent>(next: Option<Event>) -> (r: Option<(Event, T)>)
    ensures
        r is None <==> next is None,
        next is Some ==> {
            &&& (r->0).0@ == T::left_after_read(next->0@)
            &&& T::is_read_of(next->0@, (r->0).1)
        },
{
    match next {
        Some(e) => {
            let mut e = e;
            let t = T::from_event(&mut e);
            Some((e, t))
        },
        None => None,
    }
}

} // verus!
