//! The broadcast channels of `tokio` that topics are carried on.
use vstd::prelude::*;
use crate::event::{Event, EventView};

verus! {

#[verifier::external_type_specification]
#[verifier::external_body]
#[verifier::reject_recursive_types(T)]
pub struct ExSender<T>(tokio::sync::broadcast::Sender<T>);

#[verifier::external_type_specification]
#[verifier::external_body]
#[verifier::reject_recursive_types(T)]
pub struct ExReceiver<T>(tokio::sync::broadcast::Receiver<T>);

/// The largest capacity `tokio::sync::broadcast::channel` accepts.
pub open spec fn max_channel_capacity() -> nat {
    (usize::MAX / 2) as nat
}

/// The sending handle of a topic's channel.
///
/// Its ghost parts name the channel the handle belongs to, record the capacity
/// the channel was asked for, list the events that the channel took from this
/// handle, in order, and list the events whose send found no receiver and was
/// refused, in order. Only the trusted functions below set them.
pub struct TopicSender {
    handle: tokio::sync::broadcast::Sender<Event>,
    chan: Ghost<int>,
    capacity: Ghost<nat>,
    sent: Ghost<Seq<EventView>>,
    refused: Ghost<Seq<EventView>>,
}

/// A receiving handle of a topic's channel; its ghost part names the channel.
pub struct TopicReceiver {
    pub handle: tokio::sync::broadcast::Receiver<Event>,
    chan: Ghost<int>,
}

impl TopicSender {
    /// The channel the handle belongs to.
    pub closed spec fn chan(&self) -> int {
        self.chan@
    }

    /// The capacity the channel was asked for when it was opened.
    pub closed spec fn capacity(&self) -> nat {
        self.capacity@
    }

    /// The events the channel has taken from this handle, in order.
    pub closed spec fn sent(&self) -> Seq<EventView> {
        self.sent@
    }

    /// The events whose send through this handle was refused, in order.
    pub closed spec fn refused(&self) -> Seq<EventView> {
        self.refused@
    }
}

impl TopicReceiver {
    /// The channel the handle belongs to.
    pub closed spec fn chan(&self) -> int {
        self.chan@
    }
}

/// Opens a channel with `tokio::sync::broadcast::channel(capacity)`.
///
/// That function panics when `capacity` is zero or above `usize::MAX / 2`, so
/// both are left out. It returns the two ends of one new channel, so the two
/// handles are given one channel name; the channel was asked for `capacity`,
/// and nothing has been sent on it yet. That tokio rounds the capacity up to a
/// power of two, and that this channel differs from every other, stay unsaid.
#[verifier::external_body]
pub(crate) fn open_channel(capacity: usize) -> (r: (TopicSender, TopicReceiver))
    requires
        0 < capacity <= max_channel_capacity(),
    ensures
        r.0.chan() == r.1.chan(),
        r.0.capacity() == capacity,
        r.0.sent() == Seq::<EventView>::empty(),
        r.0.refused() == Seq::<EventView>::empty(),
{
    let (tx, rx) = tokio::sync::broadcast::channel(capacity);
    (
        TopicSender {
            handle: tx,
            chan: Ghost(0),
            capacity: Ghost(capacity as nat),
            sent: Ghost(Seq::empty()),
            refused: Ghost(Seq::empty()),
        },
        TopicReceiver { handle: rx, chan: Ghost(0) },
    )
}

/// Adds a receiver to the channel of `tx` with `Sender::subscribe`.
///
/// The receiver shares the channel of `tx`. That it sees only what is sent
/// after the call stays unsaid.
#[verifier::external_body]
pub(crate) fn subscribe(tx: &TopicSender) -> (rx: TopicReceiver)
    ensures
        rx.chan() == tx.chan(),
{
    TopicReceiver { handle: tx.handle.subscribe(), chan: Ghost(tx.chan@) }
}

/// Sends `e` to every receiver of the channel with `Sender::send`.
///
/// `Sender::send` writes the value into the channel and returns the number of
/// receivers, at least one, when a receiver is alive; when none is, it writes
/// nothing and hands the value back unchanged: the send is refused. Whether a
/// receiver is still alive is not known here, so which of the two happens is
/// left open. The handle stays on its channel, with its capacity, either way.
#[verifier::external_body]
pub(crate) fn send(tx: &mut TopicSender, e: Event) -> (r: Result<usize, Event>)
    ensures
        final(tx).chan() == old(tx).chan(),
        final(tx).capacity() == old(tx).capacity(),
        match r {
            Ok(n) => {
                &&& n >= 1
                &&& final(tx).sent() == old(tx).sent().push(e@)
                &&& final(tx).refused() == old(tx).refused()
            },
            Err(back) => {
                &&& back@ == e@
                &&& final(tx).sent() == old(tx).sent()
                &&& final(tx).refused() == old(tx).refused().push(e@)
            },
        },
{
    match tx.handle.send(e) {
        Ok(n) => Ok(n),
        Err(tokio::sync::broadcast::error::SendError(back)) => Err(back),
    }
}

} // verus!
