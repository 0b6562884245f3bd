//! A stage that sends each record to a topic and hands it on.
use vstd::prelude::*;
use crate::channel::{Channel, Record};
use crate::serde::{serializes_to, Serializer};
use crate::transport::{bytes_of, Transport};

verus! {

/// The records of `channel`, each also sent to `topic` with its key and value
/// serialized.
pub struct To<'a, T: Transport, C, KS, VS> {
    pub transport: &'a T,
    pub channel: C,
    pub topic: String,
    pub key_serializer: KS,
    pub value_serializer: VS,
}

impl<'a, T: Transport, C, KS, VS> To<'a, T, C, KS, VS> {
    pub fn new(
        transport: &'a T,
        channel: C,
        topic: String,
        key_serializer: KS,
        value_serializer: VS,
    ) -> (m: Self)
        ensures
            m.transport == transport,
            m.channel == channel,
            m.topic == topic,
            m.key_serializer == key_serializer,
            m.value_serializer == value_serializer,
    {
        To { transport, channel, topic, key_serializer, value_serializer }
    }
}

impl<'a, T: Transport + 'a, C: Channel<'a, T>, KS, VS> Channel<'a, T> for To<'a, T, C, KS, VS> where
    KS: Serializer<C::Key>,
    VS: Serializer<C::Value>,
 {
    type Key = C::Key;

    type Value = C::Value;

    open spec fn ready(&self) -> bool {
        &&& self.channel.ready()
        &&& forall|k: &C::Key| self.key_serializer.requires((k,))
        &&& forall|v: &C::Value| self.value_serializer.requires((v,))
    }

    /// Exactly what upstream gives.
    open spec fn may_give(&self, r: Option<Record<C::Key, C::Value>>) -> bool {
        self.channel.may_give(r)
    }

    /// The record upstream gives, handed on after it was handed to the
    /// transport for `topic`, key and value serialized.
    fn next(&self) -> (r: Option<Record<C::Key, C::Value>>)
        ensures
            r matches Some(x) ==> exists|kb: Option<Vec<u8>>, vb: Option<Vec<u8>>|
                #![trigger self.transport.produced(self.topic@, bytes_of(kb), bytes_of(vb))]
                serializes_to(x.key, self.key_serializer, kb) && serializes_to(
                    x.value,
                    self.value_serializer,
                    vb,
                ) && self.transport.produced(self.topic@, bytes_of(kb), bytes_of(vb)),
    {
        let u = self.channel.next();
        match &u {
            Some(x) => {
                self.produce(
                    self.topic.as_str(),
                    &x.key,
                    &x.value,
                    &self.key_serializer,
                    &self.value_serializer,
                );
            },
            None => {},
        }
        u
    }

    open spec fn transport_of(&self) -> &'a T {
        self.transport
    }

    fn transport(&self) -> (t: &'a T)
        ensures
            t == self.transport,
    {
        proof {
            assert(self.transport_of() == self.transport);
        }
        self.transport
    }
}

/// A sending stage hands on exactly what upstream gives.
pub proof fn lemma_to_passes_through<'a, T: Transport + 'a, C: Channel<'a, T>, KS, VS>(
    stage: To<'a, T, C, KS, VS>,
    r: Option<Record<C::Key, C::Value>>,
) where KS: Serializer<C::Key>, VS: Serializer<C::Value>
    ensures
        stage.may_give(r) == stage.channel.may_give(r),
{
}

} // verus!
