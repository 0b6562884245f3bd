//! Readers and writers of one part of an event: its key, or its value.
use vstd::prelude::*;
use crate::event::{copy_bytes, Event, EventView, FromEvent, IntoEvent};

verus! {

/// The key bytes of an event.
#[derive(Clone)]
pub struct Key(pub Vec<u8>);

/// The value bytes of an event.
#[derive(Clone)]
pub struct Value(pub Vec<u8>);

impl FromEvent for Key {
    open spec fn is_read_of(e: EventView, r: Key) -> bool {
        r.0@ == e.key
    }

    open spec fn left_after_read(e: EventView) -> EventView {
        e
    }

    fn from_event(e: &mut Event) -> (r: Key) {
        Key(copy_bytes(&e.key))
    }
}

impl IntoEvent for Key {
    open spec fn written_into(self, e: EventView) -> EventView {
        EventView { key: self.0@, value: e.value }
    }

    fn into_event(self, e: &mut Event) {
        e.key = self.0;
    }
}

impl FromEvent for Value {
    open spec fn is_read_of(e: EventView, r: Value) -> bool {
        r.0@ == e.value
    }

    open spec fn left_after_read(e: EventView) -> EventView {
        e
    }

    fn from_event(e: &mut Event) -> (r: Value) {
        Value(copy_bytes(&e.value))
    }
}

impl IntoEvent for Value {
    open spec fn written_into(self, e: EventView) -> EventView {
        EventView { key: e.key, value: self.0@ }
    }

    fn into_event(self, e: &mut Event) {
        e.value = self.0;
    }
}

/// Reading a key back from an event gives the key last written into it, and
/// writing a key leaves the value as it was.
pub proof fn lemma_key_read_after_write(k: Key, e: EventView, r: Key)
    requires
        Key::is_read_of(k.written_into(e), r),
    ensures
        r.0@ == k.0@,
        k.written_into(e).value == e.value,
{
}

/// Reading a value back from an event gives the value last written into it,
/// and writing a value leaves the key as it was.
pub proof fn lemma_value_read_after_write(v: Value, e: EventView, r: Value)
    requires
        Value::is_read_of(v.written_into(e), r),
    ensures
        r.0@ == v.0@,
        v.written_into(e).key == e.key,
{
}

/// Writing a key and a value together replaces the whole event, and reading
/// them back together gives both of them.
pub proof fn lemma_key_value_round_trip(k: Key, v: Value, e: EventView, r: (Key, Value))
    requires
        <(Key, Value) as FromEvent>::is_read_of((k, v).written_into(e), r),
    ensures
        (k, v).written_into(e) == (EventView { key: k.0@, value: v.0@ }),
        r.0.0@ == k.0@,
        r.1.0@ == v.0@,
{
}

/// Of two writes made one after the other, the later one wins.
pub proof fn lemma_later_write_wins(a: Key, b: Key, e: EventView)
    ensures
        (a, b).written_into(e) == b.written_into(e),
        (a, b).written_into(e).key == b.0@,
{
}

/// Writing a one-component tuple of a value sets the event's value and keeps
/// its key, as writing the value itself does.
pub proof fn lemma_single_value_write(v: Value, e: EventView)
    ensures
        (v,).written_into(e) == (EventView { key: e.key, value: v.0@ }),
        (v,).written_into(e) == v.written_into(e),
{
}

/// Writing keys and values one after the other leaves the last key and the
/// last value written, whatever the event held before.
pub proof fn lemma_alternating_writes(a: Key, b: Value, c: Key, d: Value, f: Key, e: EventView)
    ensures
        (a, b, c, d).written_into(e) == (EventView { key: c.0@, value: d.0@ }),
        (a, b, c, d, f).written_into(e) == (EventView { key: f.0@, value: d.0@ }),
{
}

/// Reading a key, a value and the whole event together leaves the event as it
/// was and gives its key, its value and the event itself.
pub proof fn lemma_read_key_value_event(e: EventView, r: (Key, Value, Event))
    ensures
        <(Key, Value, Event) as FromEvent>::left_after_read(e) == e,
        <(Key, Value, Event) as FromEvent>::is_read_of(e, r) <==> (r.0.0@ == e.key && r.1.0@
            == e.value && r.2@ == e),
{
}

/// Reading keys and values one after the other gives, for every component,
/// the part of the event itself that it names.
pub proof fn lemma_read_repeated_parts(e: EventView, r: (Key, Value, Key, Value))
    ensures
        <(Key, Value, Key, Value) as FromEvent>::is_read_of(e, r) <==> (r.0.0@ == e.key
            && r.1.0@ == e.value && r.2.0@ == e.key && r.3.0@ == e.value),
        <(Key, Value, Key, Value) as FromEvent>::left_after_read(e) == e,
{
}

/// Reading a key or a value leaves the event as it was.
pub proof fn lemma_reads_keep_event(e: EventView)
    ensures
        Key::left_after_read(e) == e,
        Value::left_after_read(e) == e,
        <(Key, Value) as FromEvent>::left_after_read(e) == e,
{
}

} // verus!
