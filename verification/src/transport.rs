//! Where channels read their records from and send them to.
use vstd::prelude::*;

verus! {

/// The bytes held by an optional byte vector.
pub open spec fn bytes_of(b: Option<Vec<u8>>) -> Option<Seq<u8>> {
    match b {
        Some(v) => Some(v@),
        None => None,
    }
}

/// A message service that channels consume records from and produce records
/// to, by topic. It is implemented outside this library; nothing is assumed of
/// what it does.
pub trait Transport {
    /// The key and the value of the next record on `topic`.
    fn consume(&self, topic: &str) -> (Option<&[u8]>, Option<&[u8]>);

    /// A record with `key` and `value` has been handed to `topic` for
    /// sending. A transport that says nothing of itself claims nothing here.
    open spec fn produced(
        &self,
        topic: Seq<char>,
        key: Option<Seq<u8>>,
        value: Option<Seq<u8>>,
    ) -> bool {
        true
    }

    /// Sends a record with the given key and value bytes to `topic`.
    fn produce(&self, topic: &str, key: Option<Vec<u8>>, value: Option<Vec<u8>>)
        ensures
            self.produced(topic@, bytes_of(key), bytes_of(value)),
    ;
}

} // verus!
