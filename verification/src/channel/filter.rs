//! A stage that drops the records a predicate rejects.
use vstd::prelude::*;
use crate::channel::{Channel, Record};
use crate::transport::Transport;

verus! {

/// The records of `channel` that `predicate` accepts.
pub struct Filter<'a, T: Transport, C, P> {
    pub transport: &'a T,
    pub channel: C,
    pub predicate: P,
}

impl<'a, T: Transport, C, P> Filter<'a, T, C, P> {
    pub fn new(transport: &'a T, channel: C, predicate: P) -> (m: Self)
        ensures
            m.transport == transport,
            m.channel == channel,
            m.predicate == predicate,
    {
        Filter { transport, channel, predicate }
    }
}

impl<'a, T: Transport + 'a, C: Channel<'a, T>, P> Channel<'a, T> for Filter<'a, T, C, P> where
    P: Fn(&Record<C::Key, C::Value>) -> bool,
 {
    type Key = C::Key;

    type Value = C::Value;

    open spec fn ready(&self) -> bool {
        &&& self.channel.ready()
        &&& forall|r: &Record<C::Key, C::Value>| self.predicate.requires((r,))
    }

    /// A record that upstream gives and the predicate accepts; nothing when
    /// upstream gives nothing or the predicate rejects its record.
    open spec fn may_give(&self, r: Option<Record<C::Key, C::Value>>) -> bool {
        exists|u: Option<Record<C::Key, C::Value>>|
            #![trigger self.channel.may_give(u)]
            self.channel.may_give(u) && match u {
                None => r is None,
                Some(x) => exists|keep: bool|
                    #![trigger self.predicate.ensures((&x,), keep)]
                    self.predicate.ensures((&x,), keep) && if keep {
                        r == Some(x)
                    } else {
                        r is None
                    },
            }
    }

    fn next(&self) -> (r: Option<Record<C::Key, C::Value>>) {
        let u = self.channel.next();
        match u {
            Some(x) => {
                if (self.predicate)(&x) {
                    Some(x)
                } else {
                    None
                }
            },
            None => None,
        }
    }

    open spec fn transport_of(&self) -> &'a T {
        self.transport
    }

    fn transport(&self) -> (t: &'a T)
        ensures
            t == self.transport,
    {
        proof {
            assert(self.transport_of() == self.transport);
        }
        self.transport
    }
}

/// A filter only gives records that upstream gives and that its predicate
/// accepts.
pub proof fn lemma_filter_gives_only_accepted<'a, T: Transport + 'a, C: Channel<'a, T>, P>(
    stage: Filter<'a, T, C, P>,
    x: Record<C::Key, C::Value>,
) where P: Fn(&Record<C::Key, C::Value>) -> bool
    requires
        stage.may_give(Some(x)),
    ensures
        stage.channel.may_give(Some(x)),
        stage.predicate.ensures((&x,), true),
{
    let u = choose|u: Option<Record<C::Key, C::Value>>|
        #![trigger stage.channel.may_give(u)]
        stage.channel.may_give(u) && match u {
            None => Some(x) is None,
            Some(y) => exists|keep: bool|
                #![trigger stage.predicate.ensures((&y,), keep)]
                stage.predicate.ensures((&y,), keep) && if keep {
                    Some(x) == Some(y)
                } else {
                    Some(x) is None
                },
        };
    let y = u->0;
    let keep = choose|keep: bool|
        #![trigger stage.predicate.ensures((&y,), keep)]
        stage.predicate.ensures((&y,), keep) && if keep {
            Some(x) == Some(y)
        } else {
            Some(x) is None
        };
    assert(keep);
}

/// When upstream gives nothing, neither does the filter.
pub proof fn lemma_filter_passes_nothing_on<'a, T: Transport + 'a, C: Channel<'a, T>, P>(
    stage: Filter<'a, T, C, P>,
) where P: Fn(&Record<C::Key, C::Value>) -> bool
    requires
        forall|u: Option<Record<C::Key, C::Value>>| stage.channel.may_give(u) ==> u is None,
    ensures
        forall|r: Option<Record<C::Key, C::Value>>| stage.may_give(r) ==> r is None,
{
}

} // verus!
