//! Values that can be read from, and written as, bytes.
use vstd::prelude::*;

verus! {

/// A type whose values can be read from a byte slice.
pub trait FromBytes where Self: Sized {
    /// The value that `data` holds, if it holds one.
    spec fn decoded(data: Seq<u8>) -> Option<Self>;

    fn from_bytes(data: &[u8]) -> (r: Option<Self>)
        ensures
            r == Self::decoded(data@),
    ;
}

/// A type whose values can be written as bytes.
pub trait ToBytes {
    /// The bytes that stand for `self`.
    spec fn encoded(&self) -> Seq<u8>;

    fn to_bytes(&self) -> (r: Vec<u8>)
        ensures
            r@ == self.encoded(),
    ;
}

impl FromBytes for u8 {
    /// A byte is read from the first byte of the data; empty data holds none.
    open spec fn decoded(data: Seq<u8>) -> Option<u8> {
        if data.len() == 0 {
            None
        } else {
            Some(data[0])
        }
    }

    fn from_bytes(data: &[u8]) -> (r: Option<u8>) {
        if data.len() == 0 {
            None
        } else {
            Some(data[0])
        }
    }
}

impl ToBytes for u8 {
    open spec fn encoded(&self) -> Seq<u8> {
        seq![*self]
    }

    fn to_bytes(&self) -> (r: Vec<u8>) {
        let mut v = Vec::new();
        v.push(*self);
        v
    }
}

impl ToBytes for u16 {
    /// Two bytes, the low one first (little endian).
    open spec fn encoded(&self) -> Seq<u8> {
        seq![(*self % 256) as u8, (*self / 256) as u8]
    }

    fn to_bytes(&self) -> (r: Vec<u8>) {
        let x = *self;
        let low = (x & 0x00FF) as u8;
        let high = ((x & 0xFF00) >> 8) as u8;
        assert(low == (x % 256) as u8 && high == (x / 256) as u8) by (bit_vector)
            requires
                low == (x & 0x00FF) as u8,
                high == ((x & 0xFF00) >> 8) as u8,
        ;
        let mut v = Vec::new();
        v.push(low);
        v.push(high);
        assert(v@ =~= self.encoded());
        v
    }
}

/// A byte written as bytes reads back as the same byte.
pub proof fn lemma_u8_round_trip(x: u8)
    ensures
        <u8 as FromBytes>::decoded(x.encoded()) == Some(x),
{
}

/// Reading a byte looks at the first byte only: bytes after it change nothing.
pub proof fn lemma_u8_ignores_trailing(data: Seq<u8>, rest: Seq<u8>)
    requires
        data.len() > 0,
    ensures
        <u8 as FromBytes>::decoded(data + rest) == <u8 as FromBytes>::decoded(data),
{
}

/// A `u16` is written as two bytes, low byte first, from which it can be
/// rebuilt.
pub proof fn lemma_u16_little_endian(x: u16)
    ensures
        x.encoded().len() == 2,
        x == x.encoded()[0] + 256 * x.encoded()[1],
{
}

} // verus!
