pub mod tuple_laws;
pub mod tuples;

use vstd::prelude::*;

verus! {

/// A keyed record carried by a stream: raw key bytes and raw value bytes.
#[derive(Clone, Debug)]
pub struct Event {
    pub key: Vec<u8>,
    pub value: Vec<u8>,
}

/// The mathematical content of an [`Event`].
pub struct EventView {
    pub key: Seq<u8>,
    pub value: Seq<u8>,
}

impl View for Event {
    type V = EventView;

    open spec fn view(&self) -> EventView {
        EventView { key: self.key@, value: self.value@ }
    }
}

impl Event {
    pub fn new(key: Vec<u8>, value: Vec<u8>) -> (e: Event)
        ensures
            e@ == (EventView { key: key@, value: value@ }),
    {
        Event { key, value }
    }

    /// A copy of the event with the same key and value bytes.
    pub fn duplicate(&self) -> (r: Event)
        ensures
            r@ == self@,
    {
        Event::new(copy_bytes(&self.key), copy_bytes(&self.value))
    }
}

/// Copies a byte vector, keeping every byte.
pub fn copy_bytes(v: &Vec<u8>) -> (r: Vec<u8>)
    ensures
        r@ == v@,
{
    let r = v.clone();
    assert(r@ =~= v@);
    r
}

/// A type whose values can be read out of an event.
pub trait FromEvent: Sized {
    /// `r` is a value that reading `e` may give. A reader that says nothing
    /// of itself may give any value.
    open spec fn is_read_of(e: EventView, r: Self) -> bool {
        true
    }

    /// What is left of `e` once it has been read. A reader that says nothing
    /// of itself leaves the event as it was.
    open spec fn left_after_read(e: EventView) -> EventView {
        e
    }

    fn from_event(e: &mut Event) -> (r: Self)
        ensures
            Self::is_read_of(old(e)@, r),
            final(e)@ == Self::left_after_read(old(e)@),
    ;
}

/// A type whose values can be written into an event.
pub trait IntoEvent: Sized {
    /// The event that writing `self` into `e` yields.
    spec fn written_into(self, e: EventView) -> EventView;

    fn into_event(self, e: &mut Event)
        ensures
            final(e)@ == self.written_into(old(e)@),
    ;
}

impl FromEvent for Event {
    open spec fn is_read_of(e: EventView, r: Event) -> bool {
        r@ == e
    }

    open spec fn left_after_read(e: EventView) -> EventView {
        e
    }

    fn from_event(e: &mut Event) -> (r: Event) {
        e.duplicate()
    }
}

impl IntoEvent for Event {
    open spec fn written_into(self, e: EventView) -> EventView {
        self@
    }

    fn into_event(self, e: &mut Event) {
        *e = self;
    }
}

/// An event written into another reads back as itself, whatever was there
/// before, and reading it leaves it as it was.
pub proof fn lemma_event_read_after_write(x: Event, e: EventView, r: Event)
    requires
        Event::is_read_of(x.written_into(e), r),
    ensures
        r@ == x@,
        Event::left_after_read(x.written_into(e)) == x@,
{
}

} // verus!
