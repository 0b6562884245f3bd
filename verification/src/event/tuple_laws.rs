//! Laws of reading and writing tuples: each tuple is read and written as its
//! components are, one after the other from the first to the last.
use vstd::prelude::*;
use crate::event::{EventView, FromEvent, IntoEvent};

verus! {

/// Writing the empty tuple leaves every event as it was.
pub proof fn lemma_write_tuple_0(e: EventView)
    ensures
        ().written_into(e) == e,
{
}

/// Writing a one-component tuple writes its component into the event itself,
/// and nothing more.
pub proof fn lemma_write_tuple_1<A0: IntoEvent>(t: (A0,), e: EventView)
    ensures
        t.written_into(e) == t.0.written_into(e),
{
}

/// Reading a one-component tuple reads its component from the event itself
/// and leaves the event as the component does.
pub proof fn lemma_read_tuple_1<A0: FromEvent>(e: EventView, r: (A0,))
    ensures
        <(A0,) as FromEvent>::left_after_read(e) == A0::left_after_read(e),
        <(A0,) as FromEvent>::is_read_of(e, r) == A0::is_read_of(e, r.0),
{
}

/// A tuple of 1 readers that each leave every event as it was leaves every
/// event as it was.
pub proof fn lemma_read_tuple_1_keeps<A0: FromEvent>(e: EventView)
    requires
        forall|x: EventView| #[trigger] A0::left_after_read(x) == x,
    ensures
        <(A0,) as FromEvent>::left_after_read(e) == e,
{
}

/// Writing a tuple of 2 writes its first 1 components, in order, into
/// the event itself, and then its last component into what they left: the
/// later writes win.
pub proof fn lemma_write_tuple_2<A0: IntoEvent, A1: IntoEvent>(t: (A0, A1), e: EventView)
    ensures
        t.written_into(e) == t.1.written_into((t.0,).written_into(e)),
{
}

/// Reading a tuple of 2 reads its first 1 components, in order, from the
/// event itself, and its last component from what they left; the event is
/// left as the last component leaves it.
pub proof fn lemma_read_tuple_2<A0: FromEvent, A1: FromEvent>(e: EventView, r: (A0, A1))
    ensures
        <(A0, A1) as FromEvent>::left_after_read(e) == A1::left_after_read(<(A0,) as FromEvent>::left_after_read(e)),
        <(A0, A1) as FromEvent>::is_read_of(e, r) == (<(A0,) as FromEvent>::is_read_of(e, (r.0,))
            && A1::is_read_of(<(A0,) as FromEvent>::left_after_read(e), r.1)),
{
}

/// A tuple of 2 readers that each leave every event as it was leaves every
/// event as it was.
pub proof fn lemma_read_tuple_2_keeps<A0: FromEvent, A1: FromEvent>(e: EventView)
    requires
        forall|x: EventView| #[trigger] A0::left_after_read(x) == x,
        forall|x: EventView| #[trigger] A1::left_after_read(x) == x,
    ensures
        <(A0, A1) as FromEvent>::left_after_read(e) == e,
{
}

/// Writing a tuple of 3 writes its first 2 components, in order, into
/// the event itself, and then its last component into what they left: the
/// later writes win.
pub proof fn lemma_write_tuple_3<A0: IntoEvent, A1: IntoEvent, A2: IntoEvent>(t: (A0, A1, A2), e: EventView)
    ensures
        t.written_into(e) == t.2.written_into((t.0, t.1).written_into(e)),
{
}

/// Reading a tuple of 3 reads its first 2 components, in order, from the
/// event itself, and its last component from what they left; the event is
/// left as the last component leaves it.
pub proof fn lemma_read_tuple_3<A0: FromEvent, A1: FromEvent, A2: FromEvent>(e: EventView, r: (A0, A1, A2))
    ensures
        <(A0, A1, A2) as FromEvent>::left_after_read(e) == A2::left_after_read(<(A0, A1) as FromEvent>::left_after_read(e)),
        <(A0, A1, A2) as FromEvent>::is_read_of(e, r) == (<(A0, A1) as FromEvent>::is_read_of(e, (r.0, r.1))
            && A2::is_read_of(<(A0, A1) as FromEvent>::left_after_read(e), r.2)),
{
}

/// A tuple of 3 readers that each leave every event as it was leaves every
/// event as it was.
pub proof fn lemma_read_tuple_3_keeps<A0: FromEvent, A1: FromEvent, A2: FromEvent>(e: EventView)
    requires
        forall|x: EventView| #[trigger] A0::left_after_read(x) == x,
        forall|x: EventView| #[trigger] A1::left_after_read(x) == x,
        forall|x: EventView| #[trigger] A2::left_after_read(x) == x,
    ensures
        <(A0, A1, A2) as FromEvent>::left_after_read(e) == e,
{
}

/// Writing a tuple of 4 writes its first 3 components, in order, into
/// the event itself, and then its last component into what they left: the
/// later writes win.
pub proof fn lemma_write_tuple_4<A0: IntoEvent, A1: IntoEvent, A2: IntoEvent, A3: IntoEvent>(t: (A0, A1, A2, A3), e: EventView)
    ensures
        t.written_into(e) == t.3.written_into((t.0, t.1, t.2).written_into(e)),
{
}

/// Reading a tuple of 4 reads its first 3 components, in order, from the
/// event itself, and its last component from what they left; the event is
/// left as the last component leaves it.
pub proof fn lemma_read_tuple_4<A0: FromEvent, A1: FromEvent, A2: FromEvent, A3: FromEvent>(e: EventView, r: (A0, A1, A2, A3))
    ensures
        <(A0, A1, A2, A3) as FromEvent>::left_after_read(e) == A3::left_after_read(<(A0, A1, A2) as FromEvent>::left_after_read(e)),
        <(A0, A1, A2, A3) as FromEvent>::is_read_of(e, r) == (<(A0, A1, A2) as FromEvent>::is_read_of(e, (r.0, r.1, r.2))
            && A3::is_read_of(<(A0, A1, A2) as FromEvent>::left_after_read(e), r.3)),
{
}

/// A tuple of 4 readers that each leave every event as it was leaves every
/// event as it was.
pub proof fn lemma_read_tuple_4_keeps<A0: FromEvent, A1: FromEvent, A2: FromEvent, A3: FromEvent>(e: EventView)
    requires
        forall|x: EventView| #[trigger] A0::left_after_read(x) == x,
        forall|x: EventView| #[trigger] A1::left_after_read(x) == x,
        forall|x: EventView| #[trigger] A2::left_after_read(x) == x,
        forall|x: EventView| #[trigger] A3::left_after_read(x) == x,
    ensures
        <(A0, A1, A2, A3) as FromEvent>::left_after_read(e) == e,
{
}

/// Writing a tuple of 5 writes its first 4 components, in order, into
/// the event itself, and then its last component into what they left: the
/// later writes win.
pub proof fn lemma_write_tuple_5<A0: IntoEvent, A1: IntoEvent, A2: IntoEvent, A3: IntoEvent, A4: IntoEvent>(t: (A0, A1, A2, A3, A4), e: EventView)
    ensures
        t.written_into(e) == t.4.written_into((t.0, t.1, t.2, t.3).written_into(e)),
{
}

/// Reading a tuple of 5 reads its first 4 components, in order, from the
/// event itself, and its last component from what they left; the event is
/// left as the last component leaves it.
pub proof fn lemma_read_tuple_5<A0: FromEvent, A1: FromEvent, A2: FromEvent, A3: FromEvent, A4: FromEvent>(e: EventView, r: (A0, A1, A2, A3, A4))
    ensures
        <(A0, A1, A2, A3, A4) as FromEvent>::left_after_read(e) == A4::left_after_read(<(A0, A1, A2, A3) as FromEvent>::left_after_read(e)),
        <(A0, A1, A2, A3, A4) as FromEvent>::is_read_of(e, r) == (<(A0, A1, A2, A3) as FromEvent>::is_read_of(e, (r.0, r.1, r.2, r.3))
            && A4::is_read_of(<(A0, A1, A2, A3) as FromEvent>::left_after_read(e), r.4)),
{
}

/// A tuple of 5 readers that each leave every event as it was leaves every
/// event as it was.
pub proof fn lemma_read_tuple_5_keeps<A0: FromEvent, A1: FromEvent, A2: FromEvent, A3: FromEvent, A4: FromEvent>(e: EventView)
    requires
        forall|x: EventView| #[trigger] A0::left_after_read(x) == x,
        forall|x: EventView| #[trigger] A1::left_after_read(x) == x,
        forall|x: EventView| #[trigger] A2::left_after_read(x) == x,
        forall|x: EventView| #[trigger] A3::left_after_read(x) == x,
        forall|x: EventView| #[trigger] A4::left_after_read(x) == x,
    ensures
        <(A0, A1, A2, A3, A4) as FromEvent>::left_after_read(e) == e,
{
}

/// Writing a tuple of 6 writes its first 5 components, in order, into
/// the event itself, and then its last component into what they left: the
/// later writes win.
pub proof fn lemma_write_tuple_6<A0: IntoEvent, A1: IntoEvent, A2: IntoEvent, A3: IntoEvent, A4: IntoEvent, A5: IntoEvent>(t: (A0, A1, A2, A3, A4, A5), e: EventView)
    ensures
        t.written_into(e) == t.5.written_into((t.0, t.1, t.2, t.3, t.4).written_into(e)),
{
}

/// Reading a tuple of 6 reads its first 5 components, in order, from the
/// event itself, and its last component from what they left; the event is
/// left as the last component leaves it.
pub proof fn lemma_read_tuple_6<A0: FromEvent, A1: FromEvent, A2: FromEvent, A3: FromEvent, A4: FromEvent, A5: FromEvent>(e: EventView, r: (A0, A1, A2, A3, A4, A5))
    ensures
        <(A0, A1, A2, A3, A4, A5) as FromEvent>::left_after_read(e) == A5::left_after_read(<(A0, A1, A2, A3, A4) as FromEvent>::left_after_read(e)),
        <(A0, A1, A2, A3, A4, A5) as FromEvent>::is_read_of(e, r) == (<(A0, A1, A2, A3, A4) as FromEvent>::is_read_of(e, (r.0, r.1, r.2, r.3, r.4))
            && A5::is_read_of(<(A0, A1, A2, A3, A4) as FromEvent>::left_after_read(e), r.5)),
{
}

/// A tuple of 6 readers that each leave every event as it was leaves every
/// event as it was.
pub proof fn lemma_read_tuple_6_keeps<A0: FromEvent, A1: FromEvent, A2: FromEvent, A3: FromEvent, A4: FromEvent, A5: FromEvent>(e: EventView)
    requires
        forall|x: EventView| #[trigger] A0::left_after_read(x) == x,
        forall|x: EventView| #[trigger] A1::left_after_read(x) == x,
        forall|x: EventView| #[trigger] A2::left_after_read(x) == x,
        forall|x: EventView| #[trigger] A3::left_after_read(x) == x,
        forall|x: EventView| #[trigger] A4::left_after_read(x) == x,
        forall|x: EventView| #[trigger] A5::left_after_read(x) == x,
    ensures
        <(A0, A1, A2, A3, A4, A5) as FromEvent>::left_after_read(e) == e,
{
}

/// Writing a tuple of 7 writes its first 6 components, in order, into
/// the event itself, and then its last component into what they left: the
/// later writes win.
pub proof fn lemma_write_tuple_7<A0: IntoEvent, A1: IntoEvent, A2: IntoEvent, A3: IntoEvent, A4: IntoEvent, A5: IntoEvent, A6: IntoEvent>(t: (A0, A1, A2, A3, A4, A5, A6), e: EventView)
    ensures
        t.written_into(e) == t.6.written_into((t.0, t.1, t.2, t.3, t.4, t.5).written_into(e)),
{
}

/// Reading a tuple of 7 reads its first 6 components, in order, from the
/// event itself, and its last component from what they left; the event is
/// left as the last component leaves it.
pub proof fn lemma_read_tuple_7<A0: FromEvent, A1: FromEvent, A2: FromEvent, A3: FromEvent, A4: FromEvent, A5: FromEvent, A6: FromEvent>(e: EventView, r: (A0, A1, A2, A3, A4, A5, A6))
    ensures
        <(A0, A1, A2, A3, A4, A5, A6) as FromEvent>::left_after_read(e) == A6::left_after_read(<(A0, A1, A2, A3, A4, A5) as FromEvent>::left_after_read(e)),
        <(A0, A1, A2, A3, A4, A5, A6) as FromEvent>::is_read_of(e, r) == (<(A0, A1, A2, A3, A4, A5) as FromEvent>::is_read_of(e, (r.0, r.1, r.2, r.3, r.4, r.5))
            && A6::is_read_of(<(A0, A1, A2, A3, A4, A5) as FromEvent>::left_after_read(e), r.6)),
{
}

/// A tuple of 7 readers that each leave every event as it was leaves every
/// event as it was.
pub proof fn lemma_read_tuple_7_keeps<A0: FromEvent, A1: FromEvent, A2: FromEvent, A3: FromEvent, A4: FromEvent, A5: FromEvent, A6: FromEvent>(e: EventView)
    requires
        forall|x: EventView| #[trigger] A0::left_after_read(x) == x,
        forall|x: EventView| #[trigger] A1::left_after_read(x) == x,
        forall|x: EventView| #[trigger] A2::left_after_read(x) == x,
        forall|x: EventView| #[trigger] A3::left_after_read(x) == x,
        forall|x: EventView| #[trigger] A4::left_after_read(x) == x,
        forall|x: EventView| #[trigger] A5::left_after_read(x) == x,
        forall|x: EventView| #[trigger] A6::left_after_read(x) == x,
    ensures
        <(A0, A1, A2, A3, A4, A5, A6) as FromEvent>::left_after_read(e) == e,
{
}

/// Writing a tuple of 8 writes its first 7 components, in order, into
/// the event itself, and then its last component into what they left: the
/// later writes win.
pub proof fn lemma_write_tuple_8<A0: IntoEvent, A1: IntoEvent, A2: IntoEvent, A3: IntoEvent, A4: IntoEvent, A5: IntoEvent, A6: IntoEvent, A7: IntoEvent>(t: (A0, A1, A2, A3, A4, A5, A6, A7), e: EventView)
    ensures
        t.written_into(e) == t.7.written_into((t.0, t.1, t.2, t.3, t.4, t.5, t.6).written_into(e)),
{
}

/// Reading a tuple of 8 reads its first 7 components, in order, from the
/// event itself, and its last component from what they left; the event is
/// left as the last component leaves it.
pub proof fn lemma_read_tuple_8<A0: FromEvent, A1: FromEvent, A2: FromEvent, A3: FromEvent, A4: FromEvent, A5: FromEvent, A6: FromEvent, A7: FromEvent>(e: EventView, r: (A0, A1, A2, A3, A4, A5, A6, A7))
    ensures
        <(A0, A1, A2, A3, A4, A5, A6, A7) as FromEvent>::left_after_read(e) == A7::left_after_read(<(A0, A1, A2, A3, A4, A5, A6) as FromEvent>::left_after_read(e)),
        <(A0, A1, A2, A3, A4, A5, A6, A7) as FromEvent>::is_read_of(e, r) == (<(A0, A1, A2, A3, A4, A5, A6) as FromEvent>::is_read_of(e, (r.0, r.1, r.2, r.3, r.4, r.5, r.6))
            && A7::is_read_of(<(A0, A1, A2, A3, A4, A5, A6) as FromEvent>::left_after_read(e), r.7)),
{
}

/// A tuple of 8 readers that each leave every event as it was leaves every
/// event as it was.
pub proof fn lemma_read_tuple_8_keeps<A0: FromEvent, A1: FromEvent, A2: FromEvent, A3: FromEvent, A4: FromEvent, A5: FromEvent, A6: FromEvent, A7: FromEvent>(e: EventView)
    requires
        forall|x: EventView| #[trigger] A0::left_after_read(x) == x,
        forall|x: EventView| #[trigger] A1::left_after_read(x) == x,
        forall|x: EventView| #[trigger] A2::left_after_read(x) == x,
        forall|x: EventView| #[trigger] A3::left_after_read(x) == x,
        forall|x: EventView| #[trigger] A4::left_after_read(x) == x,
        forall|x: EventView| #[trigger] A5::left_after_read(x) == x,
        forall|x: EventView| #[trigger] A6::left_after_read(x) == x,
        forall|x: EventView| #[trigger] A7::left_after_read(x) == x,
    ensures
        <(A0, A1, A2, A3, A4, A5, A6, A7) as FromEvent>::left_after_read(e) == e,
{
}

/// Writing a tuple of 9 writes its first 8 components, in order, into
/// the event itself, and then its last component into what they left: the
/// later writes win.
pub proof fn lemma_write_tuple_9<A0: IntoEvent, A1: IntoEvent, A2: IntoEvent, A3: IntoEvent, A4: IntoEvent, A5: IntoEvent, A6: IntoEvent, A7: IntoEvent, A8: IntoEvent>(t: (A0, A1, A2, A3, A4, A5, A6, A7, A8), e: EventView)
    ensures
        t.written_into(e) == t.8.written_into((t.0, t.1, t.2, t.3, t.4, t.5, t.6, t.7).written_into(e)),
{
}

/// Reading a tuple of 9 reads its first 8 components, in order, from the
/// event itself, and its last component from what they left; the event is
/// left as the last component leaves it.
pub proof fn lemma_read_tuple_9<A0: FromEvent, A1: FromEvent, A2: FromEvent, A3: FromEvent, A4: FromEvent, A5: FromEvent, A6: FromEvent, A7: FromEvent, A8: FromEvent>(e: EventView, r: (A0, A1, A2, A3, A4, A5, A6, A7, A8))
    ensures
        <(A0, A1, A2, A3, A4, A5, A6, A7, A8) as FromEvent>::left_after_read(e) == A8::left_after_read(<(A0, A1, A2, A3, A4, A5, A6, A7) as FromEvent>::left_after_read(e)),
        <(A0, A1, A2, A3, A4, A5, A6, A7, A8) as FromEvent>::is_read_of(e, r) == (<(A0, A1, A2, A3, A4, A5, A6, A7) as FromEvent>::is_read_of(e, (r.0, r.1, r.2, r.3, r.4, r.5, r.6, r.7))
            && A8::is_read_of(<(A0, A1, A2, A3, A4, A5, A6, A7) as FromEvent>::left_after_read(e), r.8)),
{
}

/// A tuple of 9 readers that each leave every event as it was leaves every
/// event as it was.
pub proof fn lemma_read_tuple_9_keeps<A0: FromEvent, A1: FromEvent, A2: FromEvent, A3: FromEvent, A4: FromEvent, A5: FromEvent, A6: FromEvent, A7: FromEvent, A8: FromEvent>(e: EventView)
    requires
        forall|x: EventView| #[trigger] A0::left_after_read(x) == x,
        forall|x: EventView| #[trigger] A1::left_after_read(x) == x,
        forall|x: EventView| #[trigger] A2::left_after_read(x) == x,
        forall|x: EventView| #[trigger] A3::left_after_read(x) == x,
        forall|x: EventView| #[trigger] A4::left_after_read(x) == x,
        forall|x: EventView| #[trigger] A5::left_after_read(x) == x,
        forall|x: EventView| #[trigger] A6::left_after_read(x) == x,
        forall|x: EventView| #[trigger] A7::left_after_read(x) == x,
        forall|x: EventView| #[trigger] A8::left_after_read(x) == x,
    ensures
        <(A0, A1, A2, A3, A4, A5, A6, A7, A8) as FromEvent>::left_after_read(e) == e,
{
}

/// Writing a tuple of 10 writes its first 9 components, in order, into
/// the event itself, and then its last component into what they left: the
/// later writes win.
pub proof fn lemma_write_tuple_10<A0: IntoEvent, A1: IntoEvent, A2: IntoEvent, A3: IntoEvent, A4: IntoEvent, A5: IntoEvent, A6: IntoEvent, A7: IntoEvent, A8: IntoEvent, A9: IntoEvent>(t: (A0, A1, A2, A3, A4, A5, A6, A7, A8, A9), e: EventView)
    ensures
        t.written_into(e) == t.9.written_into((t.0, t.1, t.2, t.3, t.4, t.5, t.6, t.7, t.8).written_into(e)),
{
}

/// Reading a tuple of 10 reads its first 9 components, in order, from the
/// event itself, and its last component from what they left; the event is
/// left as the last component leaves it.
pub proof fn lemma_read_tuple_10<A0: FromEvent, A1: FromEvent, A2: FromEvent, A3: FromEvent, A4: FromEvent, A5: FromEvent, A6: FromEvent, A7: FromEvent, A8: FromEvent, A9: FromEvent>(e: EventView, r: (A0, A1, A2, A3, A4, A5, A6, A7, A8, A9))
    ensures
        <(A0, A1, A2, A3, A4, A5, A6, A7, A8, A9) as FromEvent>::left_after_read(e) == A9::left_after_read(<(A0, A1, A2, A3, A4, A5, A6, A7, A8) as FromEvent>::left_after_read(e)),
        <(A0, A1, A2, A3, A4, A5, A6, A7, A8, A9) as FromEvent>::is_read_of(e, r) == (<(A0, A1, A2, A3, A4, A5, A6, A7, A8) as FromEvent>::is_read_of(e, (r.0, r.1, r.2, r.3, r.4, r.5, r.6, r.7, r.8))
            && A9::is_read_of(<(A0, A1, A2, A3, A4, A5, A6, A7, A8) as FromEvent>::left_after_read(e), r.9)),
{
}

/// A tuple of 10 readers that each leave every event as it was leaves every
/// event as it was.
pub proof fn lemma_read_tuple_10_keeps<A0: FromEvent, A1: FromEvent, A2: FromEvent, A3: FromEvent, A4: FromEvent, A5: FromEvent, A6: FromEvent, A7: FromEvent, A8: FromEvent, A9: FromEvent>(e: EventView)
    requires
        forall|x: EventView| #[trigger] A0::left_after_read(x) == x,
        forall|x: EventView| #[trigger] A1::left_after_read(x) == x,
        forall|x: EventView| #[trigger] A2::left_after_read(x) == x,
        forall|x: EventView| #[trigger] A3::left_after_read(x) == x,
        forall|x: EventView| #[trigger] A4::left_after_read(x) == x,
        forall|x: EventView| #[trigger] A5::left_after_read(x) == x,
        forall|x: EventView| #[trigger] A6::left_after_read(x) == x,
        forall|x: EventView| #[trigger] A7::left_after_read(x) == x,
        forall|x: EventView| #[trigger] A8::left_after_read(x) == x,
        forall|x: EventView| #[trigger] A9::left_after_read(x) == x,
    ensures
        <(A0, A1, A2, A3, A4, A5, A6, A7, A8, A9) as FromEvent>::left_after_read(e) == e,
{
}

/// Writing a tuple of 11 writes its first 10 components, in order, into
/// the event itself, and then its last component into what they left: the
/// later writes win.
pub proof fn lemma_write_tuple_11<A0: IntoEvent, A1: IntoEvent, A2: IntoEvent, A3: IntoEvent, A4: IntoEvent, A5: IntoEvent, A6: IntoEvent, A7: IntoEvent, A8: IntoEvent, A9: IntoEvent, A10: IntoEvent>(t: (A0, A1, A2, A3, A4, A5, A6, A7, A8, A9, A10), e: EventView)
    ensures
        t.written_into(e) == t.10.written_into((t.0, t.1, t.2, t.3, t.4, t.5, t.6, t.7, t.8, t.9).written_into(e)),
{
}

/// Reading a tuple of 11 reads its first 10 components, in order, from the
/// event itself, and its last component from what they left; the event is
/// left as the last component leaves it.
pub proof fn lemma_read_tuple_11<A0: FromEvent, A1: FromEvent, A2: FromEvent, A3: FromEvent, A4: FromEvent, A5: FromEvent, A6: FromEvent, A7: FromEvent, A8: FromEvent, A9: FromEvent, A10: FromEvent>(e: EventView, r: (A0, A1, A2, A3, A4, A5, A6, A7, A8, A9, A10))
    ensures
        <(A0, A1, A2, A3, A4, A5, A6, A7, A8, A9, A10) as FromEvent>::left_after_read(e) == A10::left_after_read(<(A0, A1, A2, A3, A4, A5, A6, A7, A8, A9) as FromEvent>::left_after_read(e)),
        <(A0, A1, A2, A3, A4, A5, A6, A7, A8, A9, A10) as FromEvent>::is_read_of(e, r) == (<(A0, A1, A2, A3, A4, A5, A6, A7, A8, A9) as FromEvent>::is_read_of(e, (r.0, r.1, r.2, r.3, r.4, r.5, r.6, r.7, r.8, r.9))
            && A10::is_read_of(<(A0, A1, A2, A3, A4, A5, A6, A7, A8, A9) as FromEvent>::left_after_read(e), r.10)),
{
}

/// A tuple of 11 readers that each leave every event as it was leaves every
/// event as it was.
pub proof fn lemma_read_tuple_11_keeps<A0: FromEvent, A1: FromEvent, A2: FromEvent, A3: FromEvent, A4: FromEvent, A5: FromEvent, A6: FromEvent, A7: FromEvent, A8: FromEvent, A9: FromEvent, A10: FromEvent>(e: EventView)
    requires
        forall|x: EventView| #[trigger] A0::left_after_read(x) == x,
        forall|x: EventView| #[trigger] A1::left_after_read(x) == x,
        forall|x: EventView| #[trigger] A2::left_after_read(x) == x,
        forall|x: EventView| #[trigger] A3::left_after_read(x) == x,
        forall|x: EventView| #[trigger] A4::left_after_read(x) == x,
        forall|x: EventView| #[trigger] A5::left_after_read(x) == x,
        forall|x: EventView| #[trigger] A6::left_after_read(x) == x,
        forall|x: EventView| #[trigger] A7::left_after_read(x) == x,
        forall|x: EventView| #[trigger] A8::left_after_read(x) == x,
        forall|x: EventView| #[trigger] A9::left_after_read(x) == x,
        forall|x: EventView| #[trigger] A10::left_after_read(x) == x,
    ensures
        <(A0, A1, A2, A3, A4, A5, A6, A7, A8, A9, A10) as FromEvent>::left_after_read(e) == e,
{
}

/// Writing a tuple of 12 writes its first 11 components, in order, into
/// the event itself, and then its last component into what they left: the
/// later writes win.
pub proof fn lemma_write_tuple_12<A0: IntoEvent, A1: IntoEvent, A2: IntoEvent, A3: IntoEvent, A4: IntoEvent, A5: IntoEvent, A6: IntoEvent, A7: IntoEvent, A8: IntoEvent, A9: IntoEvent, A10: IntoEvent, A11: IntoEvent>(t: (A0, A1, A2, A3, A4, A5, A6, A7, A8, A9, A10, A11), e: EventView)
    ensures
        t.written_into(e) == t.11.written_into((t.0, t.1, t.2, t.3, t.4, t.5, t.6, t.7, t.8, t.9, t.10).written_into(e)),
{
}

/// Reading a tuple of 12 reads its first 11 components, in order, from the
/// event itself, and its last component from what they left; the event is
/// left as the last component leaves it.
pub proof fn lemma_read_tuple_12<A0: FromEvent, A1: FromEvent, A2: FromEvent, A3: FromEvent, A4: FromEvent, A5: FromEvent, A6: FromEvent, A7: FromEvent, A8: FromEvent, A9: FromEvent, A10: FromEvent, A11: FromEvent>(e: EventView, r: (A0, A1, A2, A3, A4, A5, A6, A7, A8, A9, A10, A11))
    ensures
        <(A0, A1, A2, A3, A4, A5, A6, A7, A8, A9, A10, A11) as FromEvent>::left_after_read(e) == A11::left_after_read(<(A0, A1, A2, A3, A4, A5, A6, A7, A8, A9, A10) as FromEvent>::left_after_read(e)),
        <(A0, A1, A2, A3, A4, A5, A6, A7, A8, A9, A10, A11) as FromEvent>::is_read_of(e, r) == (<(A0, A1, A2, A3, A4, A5, A6, A7, A8, A9, A10) as FromEvent>::is_read_of(e, (r.0, r.1, r.2, r.3, r.4, r.5, r.6, r.7, r.8, r.9, r.10))
            && A11::is_read_of(<(A0, A1, A2, A3, A4, A5, A6, A7, A8, A9, A10) as FromEvent>::left_after_read(e), r.11)),
{
}

/// A tuple of 12 readers that each leave every event as it was leaves every
/// event as it was.
pub proof fn lemma_read_tuple_12_keeps<A0: FromEvent, A1: FromEvent, A2: FromEvent, A3: FromEvent, A4: FromEvent, A5: FromEvent, A6: FromEvent, A7: FromEvent, A8: FromEvent, A9: FromEvent, A10: FromEvent, A11: FromEvent>(e: EventView)
    requires
        forall|x: EventView| #[trigger] A0::left_after_read(x) == x,
        forall|x: EventView| #[trigger] A1::left_after_read(x) == x,
        forall|x: EventView| #[trigger] A2::left_after_read(x) == x,
        forall|x: EventView| #[trigger] A3::left_after_read(x) == x,
        forall|x: EventView| #[trigger] A4::left_after_read(x) == x,
        forall|x: EventView| #[trigger] A5::left_after_read(x) == x,
        forall|x: EventView| #[trigger] A6::left_after_read(x) == x,
        forall|x: EventView| #[trigger] A7::left_after_read(x) == x,
        forall|x: EventView| #[trigger] A8::left_after_read(x) == x,
        forall|x: EventView| #[trigger] A9::left_after_read(x) == x,
        forall|x: EventView| #[trigger] A10::left_after_read(x) == x,
        forall|x: EventView| #[trigger] A11::left_after_read(x) == x,
    ensures
        <(A0, A1, A2, A3, A4, A5, A6, A7, A8, A9, A10, A11) as FromEvent>::left_after_read(e) == e,
{
}

/// Writing a tuple of 13 writes its first 12 components, in order, into
/// the event itself, and then its last component into what they left: the
/// later writes win.
pub proof fn lemma_write_tuple_13<A0: IntoEvent, A1: IntoEvent, A2: IntoEvent, A3: IntoEvent, A4: IntoEvent, A5: IntoEvent, A6: IntoEvent, A7: IntoEvent, A8: IntoEvent, A9: IntoEvent, A10: IntoEvent, A11: IntoEvent, A12: IntoEvent>(t: (A0, A1, A2, A3, A4, A5, A6, A7, A8, A9, A10, A11, A12), e: EventView)
    ensures
        t.written_into(e) == t.12.written_into((t.0, t.1, t.2, t.3, t.4, t.5, t.6, t.7, t.8, t.9, t.10, t.11).written_into(e)),
{
}

/// Reading a tuple of 13 reads its first 12 components, in order, from the
/// event itself, and its last component from what they left; the event is
/// left as the last component leaves it.
pub proof fn lemma_read_tuple_13<A0: FromEvent, A1: FromEvent, A2: FromEvent, A3: FromEvent, A4: FromEvent, A5: FromEvent, A6: FromEvent, A7: FromEvent, A8: FromEvent, A9: FromEvent, A10: FromEvent, A11: FromEvent, A12: FromEvent>(e: EventView, r: (A0, A1, A2, A3, A4, A5, A6, A7, A8, A9, A10, A11, A12))
    ensures
        <(A0, A1, A2, A3, A4, A5, A6, A7, A8, A9, A10, A11, A12) as FromEvent>::left_after_read(e) == A12::left_after_read(<(A0, A1, A2, A3, A4, A5, A6, A7, A8, A9, A10, A11) as FromEvent>::left_after_read(e)),
        <(A0, A1, A2, A3, A4, A5, A6, A7, A8, A9, A10, A11, A12) as FromEvent>::is_read_of(e, r) == (<(A0, A1, A2, A3, A4, A5, A6, A7, A8, A9, A10, A11) as FromEvent>::is_read_of(e, (r.0, r.1, r.2, r.3, r.4, r.5, r.6, r.7, r.8, r.9, r.10, r.11))
            && A12::is_read_of(<(A0, A1, A2, A3, A4, A5, A6, A7, A8, A9, A10, A11) as FromEvent>::left_after_read(e), r.12)),
{
}

/// A tuple of 13 readers that each leave every event as it was leaves every
/// event as it was.
pub proof fn lemma_read_tuple_13_keeps<A0: FromEvent, A1: FromEvent, A2: FromEvent, A3: FromEvent, A4: FromEvent, A5: FromEvent, A6: FromEvent, A7: FromEvent, A8: FromEvent, A9: FromEvent, A10: FromEvent, A11: FromEvent, A12: FromEvent>(e: EventView)
    requires
        forall|x: EventView| #[trigger] A0::left_after_read(x) == x,
        forall|x: EventView| #[trigger] A1::left_after_read(x) == x,
        forall|x: EventView| #[trigger] A2::left_after_read(x) == x,
        forall|x: EventView| #[trigger] A3::left_after_read(x) == x,
        forall|x: EventView| #[trigger] A4::left_after_read(x) == x,
        forall|x: EventView| #[trigger] A5::left_after_read(x) == x,
        forall|x: EventView| #[trigger] A6::left_after_read(x) == x,
        forall|x: EventView| #[trigger] A7::left_after_read(x) == x,
        forall|x: EventView| #[trigger] A8::left_after_read(x) == x,
        forall|x: EventView| #[trigger] A9::left_after_read(x) == x,
        forall|x: EventView| #[trigger] A10::left_after_read(x) == x,
        forall|x: EventView| #[trigger] A11::left_after_read(x) == x,
        forall|x: EventView| #[trigger] A12::left_after_read(x) == x,
    ensures
        <(A0, A1, A2, A3, A4, A5, A6, A7, A8, A9, A10, A11, A12) as FromEvent>::left_after_read(e) == e,
{
}

/// Writing a tuple of 14 writes its first 13 components, in order, into
/// the event itself, and then its last component into what they left: the
/// later writes win.
pub proof fn lemma_write_tuple_14<A0: IntoEvent, A1: IntoEvent, A2: IntoEvent, A3: IntoEvent, A4: IntoEvent, A5: IntoEvent, A6: IntoEvent, A7: IntoEvent, A8: IntoEvent, A9: IntoEvent, A10: IntoEvent, A11: IntoEvent, A12: IntoEvent, A13: IntoEvent>(t: (A0, A1, A2, A3, A4, A5, A6, A7, A8, A9, A10, A11, A12, A13), e: EventView)
    ensures
        t.written_into(e) == t.13.written_into((t.0, t.1, t.2, t.3, t.4, t.5, t.6, t.7, t.8, t.9, t.10, t.11, t.12).written_into(e)),
{
}

/// Reading a tuple of 14 reads its first 13 components, in order, from the
/// event itself, and its last component from what they left; the event is
/// left as the last component leaves it.
pub proof fn lemma_read_tuple_14<A0: FromEvent, A1: FromEvent, A2: FromEvent, A3: FromEvent, A4: FromEvent, A5: FromEvent, A6: FromEvent, A7: FromEvent, A8: FromEvent, A9: FromEvent, A10: FromEvent, A11: FromEvent, A12: FromEvent, A13: FromEvent>(e: EventView, r: (A0, A1, A2, A3, A4, A5, A6, A7, A8, A9, A10, A11, A12, A13))
    ensures
        <(A0, A1, A2, A3, A4, A5, A6, A7, A8, A9, A10, A11, A12, A13) as FromEvent>::left_after_read(e) == A13::left_after_read(<(A0, A1, A2, A3, A4, A5, A6, A7, A8, A9, A10, A11, A12) as FromEvent>::left_after_read(e)),
        <(A0, A1, A2, A3, A4, A5, A6, A7, A8, A9, A10, A11, A12, A13) as FromEvent>::is_read_of(e, r) == (<(A0, A1, A2, A3, A4, A5, A6, A7, A8, A9, A10, A11, A12) as FromEvent>::is_read_of(e, (r.0, r.1, r.2, r.3, r.4, r.5, r.6, r.7, r.8, r.9, r.10, r.11, r.12))
            && A13::is_read_of(<(A0, A1, A2, A3, A4, A5, A6, A7, A8, A9, A10, A11, A12) as FromEvent>::left_after_read(e), r.13)),
{
}

/// A tuple of 14 readers that each leave every event as it was leaves every
/// event as it was.
pub proof fn lemma_read_tuple_14_keeps<A0: FromEvent, A1: FromEvent, A2: FromEvent, A3: FromEvent, A4: FromEvent, A5: FromEvent, A6: FromEvent, A7: FromEvent, A8: FromEvent, A9: FromEvent, A10: FromEvent, A11: FromEvent, A12: FromEvent, A13: FromEvent>(e: EventView)
    requires
        forall|x: EventView| #[trigger] A0::left_after_read(x) == x,
        forall|x: EventView| #[trigger] A1::left_after_read(x) == x,
        forall|x: EventView| #[trigger] A2::left_after_read(x) == x,
        forall|x: EventView| #[trigger] A3::left_after_read(x) == x,
        forall|x: EventView| #[trigger] A4::left_after_read(x) == x,
        forall|x: EventView| #[trigger] A5::left_after_read(x) == x,
        forall|x: EventView| #[trigger] A6::left_after_read(x) == x,
        forall|x: EventView| #[trigger] A7::left_after_read(x) == x,
        forall|x: EventView| #[trigger] A8::left_after_read(x) == x,
        forall|x: EventView| #[trigger] A9::left_after_read(x) == x,
        forall|x: EventView| #[trigger] A10::left_after_read(x) == x,
        forall|x: EventView| #[trigger] A11::left_after_read(x) == x,
        forall|x: EventView| #[trigger] A12::left_after_read(x) == x,
        forall|x: EventView| #[trigger] A13::left_after_read(x) == x,
    ensures
        <(A0, A1, A2, A3, A4, A5, A6, A7, A8, A9, A10, A11, A12, A13) as FromEvent>::left_after_read(e) == e,
{
}

/// Writing a tuple of 15 writes its first 14 components, in order, into
/// the event itself, and then its last component into what they left: the
/// later writes win.
pub proof fn lemma_write_tuple_15<A0: IntoEvent, A1: IntoEvent, A2: IntoEvent, A3: IntoEvent, A4: IntoEvent, A5: IntoEvent, A6: IntoEvent, A7: IntoEvent, A8: IntoEvent, A9: IntoEvent, A10: IntoEvent, A11: IntoEvent, A12: IntoEvent, A13: IntoEvent, A14: IntoEvent>(t: (A0, A1, A2, A3, A4, A5, A6, A7, A8, A9, A10, A11, A12, A13, A14), e: EventView)
    ensures
        t.written_into(e) == t.14.written_into((t.0, t.1, t.2, t.3, t.4, t.5, t.6, t.7, t.8, t.9, t.10, t.11, t.12, t.13).written_into(e)),
{
}

/// Reading a tuple of 15 reads its first 14 components, in order, from the
/// event itself, and its last component from what they left; the event is
/// left as the last component leaves it.
pub proof fn lemma_read_tuple_15<A0: FromEvent, A1: FromEvent, A2: FromEvent, A3: FromEvent, A4: FromEvent, A5: FromEvent, A6: FromEvent, A7: FromEvent, A8: FromEvent, A9: FromEvent, A10: FromEvent, A11: FromEvent, A12: FromEvent, A13: FromEvent, A14: FromEvent>(e: EventView, r: (A0, A1, A2, A3, A4, A5, A6, A7, A8, A9, A10, A11, A12, A13, A14))
    ensures
        <(A0, A1, A2, A3, A4, A5, A6, A7, A8, A9, A10, A11, A12, A13, A14) as FromEvent>::left_after_read(e) == A14::left_after_read(<(A0, A1, A2, A3, A4, A5, A6, A7, A8, A9, A10, A11, A12, A13) as FromEvent>::left_after_read(e)),
        <(A0, A1, A2, A3, A4, A5, A6, A7, A8, A9, A10, A11, A12, A13, A14) as FromEvent>::is_read_of(e, r) == (<(A0, A1, A2, A3, A4, A5, A6, A7, A8, A9, A10, A11, A12, A13) as FromEvent>::is_read_of(e, (r.0, r.1, r.2, r.3, r.4, r.5, r.6, r.7, r.8, r.9, r.10, r.11, r.12, r.13))
            && A14::is_read_of(<(A0, A1, A2, A3, A4, A5, A6, A7, A8, A9, A10, A11, A12, A13) as FromEvent>::left_after_read(e), r.14)),
{
}

/// A tuple of 15 readers that each leave every event as it was leaves every
/// event as it was.
pub proof fn lemma_read_tuple_15_keeps<A0: FromEvent, A1: FromEvent, A2: FromEvent, A3: FromEvent, A4: FromEvent, A5: FromEvent, A6: FromEvent, A7: FromEvent, A8: FromEvent, A9: FromEvent, A10: FromEvent, A11: FromEvent, A12: FromEvent, A13: FromEvent, A14: FromEvent>(e: EventView)
    requires
        forall|x: EventView| #[trigger] A0::left_after_read(x) == x,
        forall|x: EventView| #[trigger] A1::left_after_read(x) == x,
        forall|x: EventView| #[trigger] A2::left_after_read(x) == x,
        forall|x: EventView| #[trigger] A3::left_after_read(x) == x,
        forall|x: EventView| #[trigger] A4::left_after_read(x) == x,
        forall|x: EventView| #[trigger] A5::left_after_read(x) == x,
        forall|x: EventView| #[trigger] A6::left_after_read(x) == x,
        forall|x: EventView| #[trigger] A7::left_after_read(x) == x,
        forall|x: EventView| #[trigger] A8::left_after_read(x) == x,
        forall|x: EventView| #[trigger] A9::left_after_read(x) == x,
        forall|x: EventView| #[trigger] A10::left_after_read(x) == x,
        forall|x: EventView| #[trigger] A11::left_after_read(x) == x,
        forall|x: EventView| #[trigger] A12::left_after_read(x) == x,
        forall|x: EventView| #[trigger] A13::left_after_read(x) == x,
        forall|x: EventView| #[trigger] A14::left_after_read(x) == x,
    ensures
        <(A0, A1, A2, A3, A4, A5, A6, A7, A8, A9, A10, A11, A12, A13, A14) as FromEvent>::left_after_read(e) == e,
{
}

/// Writing a tuple of 16 writes its first 15 components, in order, into
/// the event itself, and then its last component into what they left: the
/// later writes win.
pub proof fn lemma_write_tuple_16<A0: IntoEvent, A1: IntoEvent, A2: IntoEvent, A3: IntoEvent, A4: IntoEvent, A5: IntoEvent, A6: IntoEvent, A7: IntoEvent, A8: IntoEvent, A9: IntoEvent, A10: IntoEvent, A11: IntoEvent, A12: IntoEvent, A13: IntoEvent, A14: IntoEvent, A15: IntoEvent>(t: (A0, A1, A2, A3, A4, A5, A6, A7, A8, A9, A10, A11, A12, A13, A14, A15), e: EventView)
    ensures
        t.written_into(e) == t.15.written_into((t.0, t.1, t.2, t.3, t.4, t.5, t.6, t.7, t.8, t.9, t.10, t.11, t.12, t.13, t.14).written_into(e)),
{
}

/// Reading a tuple of 16 reads its first 15 components, in order, from the
/// event itself, and its last component from what they left; the event is
/// left as the last component leaves it.
pub proof fn lemma_read_tuple_16<A0: FromEvent, A1: FromEvent, A2: FromEvent, A3: FromEvent, A4: FromEvent, A5: FromEvent, A6: FromEvent, A7: FromEvent, A8: FromEvent, A9: FromEvent, A10: FromEvent, A11: FromEvent, A12: FromEvent, A13: FromEvent, A14: FromEvent, A15: FromEvent>(e: EventView, r: (A0, A1, A2, A3, A4, A5, A6, A7, A8, A9, A10, A11, A12, A13, A14, A15))
    ensures
        <(A0, A1, A2, A3, A4, A5, A6, A7, A8, A9, A10, A11, A12, A13, A14, A15) as FromEvent>::left_after_read(e) == A15::left_after_read(<(A0, A1, A2, A3, A4, A5, A6, A7, A8, A9, A10, A11, A12, A13, A14) as FromEvent>::left_after_read(e)),
        <(A0, A1, A2, A3, A4, A5, A6, A7, A8, A9, A10, A11, A12, A13, A14, A15) as FromEvent>::is_read_of(e, r) == (<(A0, A1, A2, A3, A4, A5, A6, A7, A8, A9, A10, A11, A12, A13, A14) as FromEvent>::is_read_of(e, (r.0, r.1, r.2, r.3, r.4, r.5, r.6, r.7, r.8, r.9, r.10, r.11, r.12, r.13, r.14))
            && A15::is_read_of(<(A0, A1, A2, A3, A4, A5, A6, A7, A8, A9, A10, A11, A12, A13, A14) as FromEvent>::left_after_read(e), r.15)),
{
}

/// A tuple of 16 readers that each leave every event as it was leaves every
/// event as it was.
pub proof fn lemma_read_tuple_16_keeps<A0: FromEvent, A1: FromEvent, A2: FromEvent, A3: FromEvent, A4: FromEvent, A5: FromEvent, A6: FromEvent, A7: FromEvent, A8: FromEvent, A9: FromEvent, A10: FromEvent, A11: FromEvent, A12: FromEvent, A13: FromEvent, A14: FromEvent, A15: FromEvent>(e: EventView)
    requires
        forall|x: EventView| #[trigger] A0::left_after_read(x) == x,
        forall|x: EventView| #[trigger] A1::left_after_read(x) == x,
        forall|x: EventView| #[trigger] A2::left_after_read(x) == x,
        forall|x: EventView| #[trigger] A3::left_after_read(x) == x,
        forall|x: EventView| #[trigger] A4::left_after_read(x) == x,
        forall|x: EventView| #[trigger] A5::left_after_read(x) == x,
        forall|x: EventView| #[trigger] A6::left_after_read(x) == x,
        forall|x: EventView| #[trigger] A7::left_after_read(x) == x,
        forall|x: EventView| #[trigger] A8::left_after_read(x) == x,
        forall|x: EventView| #[trigger] A9::left_after_read(x) == x,
        forall|x: EventView| #[trigger] A10::left_after_read(x) == x,
        forall|x: EventView| #[trigger] A11::left_after_read(x) == x,
        forall|x: EventView| #[trigger] A12::left_after_read(x) == x,
        forall|x: EventView| #[trigger] A13::left_after_read(x) == x,
        forall|x: EventView| #[trigger] A14::left_after_read(x) == x,
        forall|x: EventView| #[trigger] A15::left_after_read(x) == x,
    ensures
        <(A0, A1, A2, A3, A4, A5, A6, A7, A8, A9, A10, A11, A12, A13, A14, A15) as FromEvent>::left_after_read(e) == e,
{
}

} // verus!
