use vstd::prelude::*;

verus! {

/// serde_json's error type, carried only to be mapped to the library's own.
#[verifier::external_type_specification]
#[verifier::external_body]
pub struct ExJsonError(serde_json::Error);

/// The compact JSON text of an object with one field, `key`, whose value is
/// the array of the numbers in `bytes`.
pub uninterp spec fn json_byte_array_object(key: Seq<char>, bytes: Seq<u8>) -> Seq<u8>;

/// What serde_json makes of `body` read as an array of bytes: the bytes, or
/// `None` when `body` is not such an array.
pub uninterp spec fn json_byte_array(body: Seq<u8>) -> Option<Seq<u8>>;

/// Relies on serde_json's `Value::Object` and its `Display`: the compact JSON
/// text of `{key: [bytes...]}`, which depends on the key and bytes alone.
#[verifier::external_body]
pub(crate) fn to_json_byte_array_object(key: &str, bytes: &[u8]) -> (r: Vec<u8>)
    ensures
        r@ == json_byte_array_object(key@, bytes@),
{
    let mut map = serde_json::Map::new();
    map.insert(key.to_string(), serde_json::Value::from(bytes.to_vec()));
    serde_json::Value::Object(map).to_string().into_bytes()
}

/// Relies on `serde_json::from_slice::<Vec<u8>>`: succeeds exactly when
/// `body` is a JSON array of numbers that each fit a byte, and then gives them.
#[verifier::external_body]
pub(crate) fn from_json_byte_array(body: &[u8]) -> (r: Result<Vec<u8>, serde_json::Error>)
    ensures
        r is Ok <==> json_byte_array(body@) is Some,
        r matches Ok(v) ==> v@ == json_byte_array(body@)->0,
{
    serde_json::from_slice::<Vec<u8>>(body)
}

} // verus!
