//! Base64 framing of byte blobs (standard alphabet, with padding), plain
//! and optional.

use vstd::prelude::*;
use crate::error::Error;

verus! {

/// The standard base64 text of `b`, as the base64 crate writes it.
pub uninterp spec fn base64_of(b: Seq<u8>) -> Seq<char>;

/// The bytes that the base64 text `s` stands for, or `None` where the base64
/// crate refuses it.
pub uninterp spec fn base64_decoded(s: Seq<char>) -> Option<Seq<u8>>;

/// Relies on `base64::encode`: standard alphabet with padding, four
/// characters for each started group of three bytes (`encoded_size`); the
/// text depends on the bytes alone, and `base64::decode` gives the bytes
/// back.
#[verifier::external_body]
fn b64_encode(bytes: &[u8]) -> (r: String)
    ensures
        r@ == base64_of(bytes@),
        r@.len() == 4 * ((bytes@.len() + 2) / 3),
        base64_decoded(r@) == Some(bytes@),
{
    base64::encode(bytes)
}

/// Relies on `base64::decode`: standard alphabet with padding; the outcome
/// depends on the text alone, and an error comes with its description.
#[verifier::external_body]
fn b64_decode(s: &str) -> (r: Result<Vec<u8>, String>)
    ensures
        r is Ok == base64_decoded(s@) is Some,
        r matches Ok(v) ==> v@ == base64_decoded(s@).unwrap(),
{
    base64::decode(s).map_err(|e| e.to_string())
}

/// The base64 text of `bytes`.
pub fn serialize_as_base64(bytes: &[u8]) -> (r: String)
    ensures
        r@ == base64_of(bytes@),
        r@.len() == 4 * ((bytes@.len() + 2) / 3),
        base64_decoded(r@) == Some(bytes@),
{
    b64_encode(bytes)
}

/// The bytes that the base64 text `s` stands for; a serialization error
/// where it is not base64.
pub fn deserialize_as_base64(s: &str) -> (r: Result<Vec<u8>, Error>)
    ensures
        base64_decoded(s@) matches Some(b) ==> (r matches Ok(v) && v@ == b),
        base64_decoded(s@) is None ==> r matches Err(Error::Serialization(_)),
{
    match b64_decode(s) {
        Ok(v) => Ok(v),
        Err(m) => Err(Error::Serialization(m)),
    }
}

/// The base64 text of the bytes, or nothing (a JSON null) where there are
/// none.
pub fn serialize_maybe_base64(value: &Option<Vec<u8>>) -> (r: Option<String>)
    ensures
        value matches Some(b) ==> (r matches Some(s) && s@ == base64_of(b@) && base64_decoded(s@)
            == Some(b@)),
        value is None ==> r is None,
{
    match value {
        Some(b) => Some(b64_encode(b.as_slice())),
        None => None,
    }
}

/// The bytes of an optional base64 text: nothing stays nothing; a text that
/// is not base64 is a serialization error.
pub fn deserialize_maybe_base64(value: Option<&str>) -> (r: Result<Option<Vec<u8>>, Error>)
    ensures
        value is None ==> r matches Ok(None),
        value matches Some(s) ==> (base64_decoded(s@) matches Some(b) ==> (r matches Ok(Some(v))
            && v@ == b)),
        value matches Some(s) ==> (base64_decoded(s@) is None ==> r matches Err(
            Error::Serialization(_),
        )),
{
    match value {
        None => Ok(None),
        Some(s) => match deserialize_as_base64(s) {
            Ok(v) => Ok(Some(v)),
            Err(e) => Err(e),
        },
    }
}

} // verus!
