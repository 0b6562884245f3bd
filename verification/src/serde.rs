//! Serializers and deserializers, given as functions, applied to optional parts.
use vstd::prelude::*;

verus! {

/// A function that writes a `T` as bytes.
pub trait Serializer<T>: Fn(&T) -> Vec<u8> {

}

impl<T, F> Serializer<T> for F where F: Fn(&T) -> Vec<u8> {

}

/// A function that reads a `T` from bytes, or says why it cannot.
pub trait Deserializer<T>: Fn(&[u8]) -> Result<T, String> {

}

impl<T, F> Deserializer<T> for F where F: Fn(&[u8]) -> Result<T, String> {

}

/// `bytes` is what `serializer` may make of `t`: nothing when there is no
/// value, and otherwise an output of the serializer on it.
pub open spec fn serializes_to<T, S: Serializer<T>>(t: Option<T>, serializer: S, bytes: Option<
    Vec<u8>,
>) -> bool {
    &&& (bytes is None <==> t is None)
    &&& (t is Some ==> serializer.ensures((&t->0,), bytes->0))
}

/// Serializes the value, if there is one.
pub fn serialize<T, S: Serializer<T>>(t: &Option<T>, serializer: &S) -> (r: Option<Vec<u8>>)
    requires
        forall|x: &T| serializer.requires((x,)),
    ensures
        r is None <==> t is None,
        t is Some ==> serializer.ensures((&t->0,), r->0),
        serializes_to(*t, *serializer, r),
{
    match t {
        Some(k) => Some((serializer)(k)),
        None => None,
    }
}

/// Deserializes the bytes, if there are some; a failed deserialization gives
/// `None`.
pub fn deserialize<T, D: Deserializer<T>>(data: Option<&[u8]>, deserializer: &D) -> (r: Option<T>)
    requires
        forall|b: &[u8]| deserializer.requires((b,)),
    ensures
        match data {
            None => r is None,
            Some(bytes) => exists|res: Result<T, String>|
                #![trigger deserializer.ensures((bytes,), res)]
                deserializer.ensures((bytes,), res) && match res {
                    Ok(t) => r == Some(t),
                    Err(_) => r is None,
                },
        },
{
    match data {
        Some(bytes) => {
            let res = (deserializer)(bytes);
            match res {
                Ok(t) => Some(t),
                Err(_) => None,
            }
        },
        None => None,
    }
}

/// Deserializes the bytes, if there are some, and keeps the deserializer's
/// explanation when it fails: `Ok(None)` without bytes, `Ok(Some(t))` when the
/// deserializer gives `t`, `Err(why)` when it gives `why`.
pub fn deserialize_reporting<T, D: Deserializer<T>>(data: Option<&[u8]>, deserializer: &D) -> (r:
    Result<Option<T>, String>)
    requires
        forall|b: &[u8]| deserializer.requires((b,)),
    ensures
        match data {
            None => r == Ok::<Option<T>, String>(None),
            Some(bytes) => exists|res: Result<T, String>|
                #![trigger deserializer.ensures((bytes,), res)]
                deserializer.ensures((bytes,), res) && match res {
                    Ok(t) => r == Ok::<Option<T>, String>(Some(t)),
                    Err(why) => r == Err::<Option<T>, String>(why),
                },
        },
{
    match data {
        Some(bytes) => {
            let res = (deserializer)(bytes);
            match res {
                Ok(t) => Ok(Some(t)),
                Err(why) => Err(why),
            }
        },
        None => Ok(None),
    }
}

} // verus!
