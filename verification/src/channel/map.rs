//! A stage that rewrites each record with a function.
use vstd::prelude::*;
use crate::channel::{Channel, Record};
use crate::transport::Transport;

verus! {

/// The records of `channel`, each rewritten with `f`.
pub struct Mapped<'a, T: Transport, C, F> {
    pub transport: &'a T,
    pub channel: C,
    pub f: F,
}

impl<'a, T: Transport, C, F> Mapped<'a, T, C, F> {
    pub fn new(transport: &'a T, channel: C, f: F) -> (m: Self)
        ensures
            m.transport == transport,
            m.channel == channel,
            m.f == f,
    {
        Mapped { transport, channel, f }
    }
}

impl<'a, T: Transport + 'a, C: Channel<'a, T>, K, V, F> Channel<'a, T> for Mapped<'a, T, C, F> where
    F: Fn(Record<C::Key, C::Value>) -> Record<K, V>,
 {
    type Key = K;

    type Value = V;

    open spec fn ready(&self) -> bool {
        &&& self.channel.ready()
        &&& forall|r: Record<C::Key, C::Value>| self.f.requires((r,))
    }

    /// A record that upstream gives, rewritten by `f`; nothing when upstream
    /// gives nothing.
    open spec fn may_give(&self, r: Option<Record<K, V>>) -> bool {
        exists|u: Option<Record<C::Key, C::Value>>|
            #![trigger self.channel.may_give(u)]
            self.channel.may_give(u) && match u {
                None => r is None,
                Some(x) => r is Some && self.f.ensures((x,), r->0),
            }
    }

    fn next(&self) -> (r: Option<Record<K, V>>) {
        let u = self.channel.next();
        match u {
            Some(x) => Some((self.f)(x)),
            None => None,
        }
    }

    open spec fn transport_of(&self) -> &'a T {
        self.transport
    }

    fn transport(&self) -> (t: &'a T)
        ensures
            t == self.transport,
    {
        proof {
            assert(self.transport_of() == self.transport);
        }
        self.transport
    }
}

/// Every record a mapped stage gives is what its function made of a record
/// that upstream gives.
pub proof fn lemma_map_gives_images<'a, T: Transport + 'a, C: Channel<'a, T>, K, V, F>(
    stage: Mapped<'a, T, C, F>,
    y: Record<K, V>,
) where F: Fn(Record<C::Key, C::Value>) -> Record<K, V>
    requires
        stage.may_give(Some(y)),
    ensures
        exists|x: Record<C::Key, C::Value>|
            #![trigger stage.f.ensures((x,), y)]
            stage.channel.may_give(Some(x)) && stage.f.ensures((x,), y),
{
    let u = choose|u: Option<Record<C::Key, C::Value>>|
        #![trigger stage.channel.may_give(u)]
        stage.channel.may_give(u) && match u {
            None => Some(y) is None,
            Some(x) => Some(y) is Some && stage.f.ensures((x,), y),
        };
    let x = u->0;
    assert(stage.channel.may_give(Some(x)) && stage.f.ensures((x,), y));
}

} // verus!
