//! A stream that keeps the events whose reading a test accepts.
use vstd::prelude::*;
use core::marker::PhantomData;
use crate::event::{Event, EventView};
use crate::stream::Step;

verus! {

/// The events of `stream` whose reading as a `T` the test `f` accepts; `Fut`
/// is the type of the test's pending answer.
pub struct Filter<St, F, T, Fut> {
    pub stream: St,
    pub f: F,
    pub t_marker: PhantomData<T>,
    pub fut_marker: PhantomData<Fut>,
}

impl<St, F, T, Fut> Filter<St, F, T, Fut> {
    pub fn new(stream: St, f: F) -> (r: Self)
        ensures
            r.stream == stream,
            r.f == f,
    {
        Filter { stream, f, t_marker: PhantomData, fut_marker: PhantomData }
    }

    /// The step after the test answered on an event: an accepted event is
    /// handed on, a rejected one passed over. Whatever the filter has handed
    /// on before, this step extends it just as [`emitted`] does for one more
    /// upstream event on which the test answers `keep`.
    pub fn on_verdict(e: Event, keep: bool) -> (s: Step)
        ensures
            keep ==> s == Step::Emit(e),
            !keep ==> s is Again,
            forall|before: Seq<EventView>, accept: spec_fn(EventView) -> bool|
                accept(e@) == keep ==> #[trigger] emitted(before.push(e@), accept) == match s {
                    Step::Emit(x) => emitted(before, accept).push(x@),
                    _ => emitted(before, accept),
                },
    {
        proof {
            assert forall|before: Seq<EventView>, accept: spec_fn(EventView) -> bool|
                accept(e@) == keep implies #[trigger] emitted(before.push(e@), accept) == (if keep {
                emitted(before, accept).push(e@)
            } else {
                emitted(before, accept)
            }) by {
                assert(before.push(e@).drop_last() =~= before);
            }
        }
        if keep {
            Step::Emit(e)
        } else {
            Step::Again
        }
    }
}

/// The events a filter hands on out of the events `upstream` gives, in order,
/// when the test's verdict on an event is `accept` of it: one step of
/// [`Filter::on_verdict`] per upstream event, each accepted event emitted and
/// each rejected one passed over.
pub open spec fn emitted(upstream: Seq<EventView>, accept: spec_fn(EventView) -> bool) -> Seq<
    EventView,
>
    decreases upstream.len(),
{
    if upstream.len() == 0 {
        Seq::empty()
    } else {
        let rest = emitted(upstream.drop_last(), accept);
        if accept(upstream.last()) {
            rest.push(upstream.last())
        } else {
            rest
        }
    }
}

/// Filtering with one test and then with another hands on what filtering once
/// with both tests together hands on.
pub proof fn lemma_filters_compose(
    upstream: Seq<EventView>,
    p: spec_fn(EventView) -> bool,
    q: spec_fn(EventView) -> bool,
)
    ensures
        emitted(emitted(upstream, p), q) == emitted(upstream, |e: EventView| p(e) && q(e)),
    decreases upstream.len(),
{
    let both = |e: EventView| p(e) && q(e);
    if upstream.len() > 0 {
        let rest = upstream.drop_last();
        let x = upstream.last();
        lemma_filters_compose(rest, p, q);
        let first = emitted(rest, p);
        if p(x) {
            assert(first.push(x).drop_last() =~= first);
            assert(first.push(x).last() == x);
        }
    }
}

/// A filter whose test accepts every event hands on every event.
pub proof fn lemma_filter_accepting_all(upstream: Seq<EventView>)
    ensures
        emitted(upstream, |e: EventView| true) == upstream,
    decreases upstream.len(),
{
    if upstream.len() > 0 {
        lemma_filter_accepting_all(upstream.drop_last());
        assert(upstream.drop_last().push(upstream.last()) =~= upstream);
    }
}

} // verus!
