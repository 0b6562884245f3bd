//! Channels: pipelines that pull records one by one from a transport, rewrite
//! them, drop some of them, and send them on.
pub mod filter;
pub mod map;
pub mod to;

use vstd::prelude::*;
use crate::channel::{filter::Filter, map::Mapped, to::To};
use crate::serde::{serialize, serializes_to, Serializer};
use crate::transport::{bytes_of, Transport};

verus! {

/// A record on a channel: a key and a value, either of which may be missing.
pub struct Record<K, V> {
    pub key: Option<K>,
    pub value: Option<V>,
}

/// A pipeline stage over the transport `T`.
///
/// A pull gives the next record that reaches the end of the stage, or `None`
/// when the record pulled from upstream was dropped on the way; a caller that
/// waits for a record pulls again.
pub trait Channel<'a, T: Transport + 'a>: Sized {
    type Key;

    type Value;

    /// The stage can be pulled: every function it applies accepts every input.
    /// A stage that says nothing of itself is taken to be ready.
    open spec fn ready(&self) -> bool {
        true
    }

    /// `r` is an outcome that one pull of the stage may give. A stage that
    /// says nothing of itself may give anything.
    open spec fn may_give(&self, r: Option<Record<Self::Key, Self::Value>>) -> bool {
        true
    }

    fn next(&self) -> (r: Option<Record<Self::Key, Self::Value>>)
        requires
            self.ready(),
        ensures
            self.may_give(r),
    ;

    /// The transport that the stage works over.
    spec fn transport_of(&self) -> &'a T;

    /// The transport that the stage works over.
    fn transport(&self) -> (t: &'a T)
        ensures
            t == self.transport_of(),
    ;

    /// Sends a record with `key` and `value`, each serialized if present, to
    /// `topic` on the transport.
    fn produce<K, V, KS, VS>(
        &self,
        topic: &str,
        key: &Option<K>,
        value: &Option<V>,
        key_serializer: &KS,
        value_serializer: &VS,
    ) where KS: Serializer<K>, VS: Serializer<V>
        requires
            forall|k: &K| key_serializer.requires((k,)),
            forall|v: &V| value_serializer.requires((v,)),
        ensures
            exists|kb: Option<Vec<u8>>, vb: Option<Vec<u8>>|
                #![trigger self.transport_of().produced(topic@, bytes_of(kb), bytes_of(vb))]
                serializes_to(*key, *key_serializer, kb) && serializes_to(
                    *value,
                    *value_serializer,
                    vb,
                ) && self.transport_of().produced(topic@, bytes_of(kb), bytes_of(vb)),
    {
        let k = serialize(key, key_serializer);
        let v = serialize(value, value_serializer);
        let ghost kb = k;
        let ghost vb = v;
        let t = self.transport();
        t.produce(topic, k, v);
        assert(serializes_to(*key, *key_serializer, kb) && serializes_to(
            *value,
            *value_serializer,
            vb,
        ) && self.transport_of().produced(topic@, bytes_of(kb), bytes_of(vb)));
    }

    /// The stage that rewrites each record of this one with `f`.
    fn map<K, V, F>(self, f: F) -> (m: Mapped<'a, T, Self, F>) where
        F: Fn(Record<Self::Key, Self::Value>) -> Record<K, V>,
        ensures
            m.transport == self.transport_of(),
            m.channel == self,
            m.f == f,
    {
        let t = self.transport();
        Mapped::new(t, self, f)
    }

    /// The stage that keeps the records of this one that `predicate` accepts.
    fn filter<P>(self, predicate: P) -> (m: Filter<'a, T, Self, P>) where
        P: Fn(&Record<Self::Key, Self::Value>) -> bool,
        ensures
            m.transport == self.transport_of(),
            m.channel == self,
            m.predicate == predicate,
    {
        let t = self.transport();
        Filter::new(t, self, predicate)
    }

    /// The stage that sends each record of this one to `topic`, key and value
    /// serialized, and hands it on unchanged.
    fn to<KS, VS>(self, topic: &str, key_serializer: KS, value_serializer: VS) -> (m: To<
        'a,
        T,
        Self,
        KS,
        VS,
    >) where KS: Serializer<Self::Key>, VS: Serializer<Self::Value>
        ensures
            m.transport == self.transport_of(),
            m.channel == self,
            m.topic@ == topic@,
            m.key_serializer == key_serializer,
            m.value_serializer == value_serializer,
    {
        let t = self.transport();
        To::new(t, self, topic.to_owned(), key_serializer, value_serializer)
    }
}

} // verus!
