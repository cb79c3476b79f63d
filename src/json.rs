use vstd::prelude::*;
use vstd::utf8::{decode_utf8, valid_utf8};

verus! {

#[verifier::external_type_specification]
#[verifier::external_body]
pub struct ExJsonValue(serde_json::Value);

#[verifier::external_type_specification]
#[verifier::external_body]
pub struct ExJsonError(serde_json::Error);

/// Whether the bytes are one JSON text that serde_json accepts as a value.
pub uninterp spec fn is_json_text(bytes: Seq<u8>) -> bool;

/// The JSON value that serde_json reads from the bytes.
pub uninterp spec fn parsed_json(bytes: Seq<u8>) -> serde_json::Value;

/// What a JSON pointer addresses in a value, as serde_json resolves it.
pub uninterp spec fn pointer_target(v: serde_json::Value, pointer: Seq<char>) -> Option<serde_json::Value>;

/// Relies on serde_json::from_slice into a `Value`: it succeeds exactly on the
/// byte strings that hold one JSON text, and what it reads depends on the
/// bytes alone.
#[verifier::external_body]
pub(crate) fn parse_json(bytes: &[u8]) -> (r: Result<serde_json::Value, serde_json::Error>)
    ensures
        r is Ok <==> is_json_text(bytes@),
        r matches Ok(v) ==> v == parsed_json(bytes@),
{
    serde_json::from_slice::<serde_json::Value>(bytes)
}

/// Relies on the derived `Clone` of serde_json::Value: a copy of the same
/// JSON value.
#[verifier::external_body]
pub(crate) fn copy_json(v: &serde_json::Value) -> (r: serde_json::Value)
    ensures
        r == *v,
{
    v.clone()
}

/// Relies on serde_json::Value::pointer (and a copy of what it finds): the
/// empty pointer addresses the whole value, and a pointer that does not start
/// with `/` addresses nothing.
#[verifier::external_body]
pub(crate) fn lookup_pointer(v: &serde_json::Value, pointer: &str) -> (r: Option<serde_json::Value>)
    ensures
        r == pointer_target(*v, pointer@),
        pointer@.len() == 0 ==> r == Some(*v),
        pointer@.len() > 0 && pointer@[0] != '/' ==> r is None,
{
    v.pointer(pointer).cloned()
}

/// The compact JSON text of a value, as serde_json writes it.
pub uninterp spec fn json_bytes_of(v: serde_json::Value) -> Seq<u8>;

/// Relies on serde_json::to_vec on a `Value`: it fails only on a map with
/// keys that are not strings or on a failing `Serialize` impl, and a `Value`
/// has neither; the bytes depend on the value alone.
#[verifier::external_body]
pub(crate) fn json_bytes(v: &serde_json::Value) -> (r: Result<Vec<u8>, serde_json::Error>)
    ensures
        r is Ok,
        r matches Ok(b) ==> b@ == json_bytes_of(*v),
{
    serde_json::to_vec(v)
}

/// Relies on std's String::from_utf8: it succeeds exactly on valid UTF-8 and
/// then holds the decoded characters.
#[verifier::external_body]
pub(crate) fn utf8_text(bytes: Vec<u8>) -> (r: Option<String>)
    ensures
        r is Some <==> valid_utf8(bytes@),
        r matches Some(s) ==> s@ == decode_utf8(bytes@),
{
    match String::from_utf8(bytes) {
        Ok(s) => Some(s),
        Err(_) => None,
    }
}

} // verus!
