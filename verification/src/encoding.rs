//! Byte encodings that the identifiers use: base64url (unpadded), base58 and
//! canonical JSON. The codecs themselves are those of the `base64`, `bs58`
//! and `json_atomic` crates; what this library relies on of them is stated
//! in the contracts below.
use base64::Engine;
use vstd::prelude::*;

verus! {

/// What unpadded base64url (RFC 4648 §5) makes of some bytes.
pub uninterp spec fn base64url_encoding(data: Seq<u8>) -> Seq<char>;

/// What unpadded base64url decoding makes of some input bytes; `None` when
/// the input is refused.
pub uninterp spec fn base64url_decoding(input: Seq<u8>) -> Option<Seq<u8>>;

/// What base58 (Bitcoin alphabet) makes of some bytes.
pub uninterp spec fn base58_encoding(data: Seq<u8>) -> Seq<char>;

/// The characters of the URL-safe base64 alphabet.
pub open spec fn is_base64url_char(c: char) -> bool {
    ('A' <= c && c <= 'Z') || ('a' <= c && c <= 'z') || ('0' <= c && c <= '9') || c == '-' || c
        == '_'
}

/// Encodes bytes with `URL_SAFE_NO_PAD.encode` of the `base64` crate.
///
/// Trusted: the result is the named encoding; it is made of URL-safe
/// alphabet characters only; and decoding (the UTF-8 bytes of) it with the
/// same engine gives the input back.
#[verifier::external_body]
pub(crate) fn b64url_encode(data: &[u8]) -> (res: String)
    ensures
        res@ == base64url_encoding(data@),
        forall|i: int| 0 <= i < res@.len() ==> is_base64url_char(#[trigger] res@[i]),
        base64url_decoding(vstd::utf8::encode_utf8(res@)) == Some(data@),
{
    base64::engine::general_purpose::URL_SAFE_NO_PAD.encode(data)
}

/// Decodes bytes with `URL_SAFE_NO_PAD.decode` of the `base64` crate.
///
/// Trusted: the result is the named decoding, `None` where the crate
/// returns an error; only canonical encodings are accepted (no padding, no
/// stray trailing bits), so the input is the encoding of what comes out.
#[verifier::external_body]
pub(crate) fn b64url_decode(input: &[u8]) -> (res: Option<Vec<u8>>)
    ensures
        match res {
            Some(v) => base64url_decoding(input@) == Some(v@) && vstd::utf8::encode_utf8(
                base64url_encoding(v@),
            ) == input@,
            None => base64url_decoding(input@) is None,
        },
{
    match base64::engine::general_purpose::URL_SAFE_NO_PAD.decode(input) {
        Ok(v) => Some(v),
        Err(_) => None,
    }
}

/// Encodes bytes with `bs58::encode(..).into_string()` (Bitcoin alphabet).
///
/// Trusted: the result is the named encoding, and no other bytes encode to
/// it (each leading zero byte becomes a `1`, the rest are the base-58 digits
/// of the number the remaining bytes spell, without leading zero digit, so
/// `bs58::decode` gives the data back).
#[verifier::external_body]
pub(crate) fn bs58_encode(data: &[u8]) -> (res: String)
    ensures
        res@ == base58_encoding(data@),
        forall|other: Seq<u8>| #[trigger] base58_encoding(other) == res@ ==> other == data@,
{
    bs58::encode(data).into_string()
}

/// A JSON value of the `serde_json` crate, carried through unchanged.
#[verifier::external_type_specification]
#[verifier::external_body]
pub struct ExJsonValue(serde_json::Value);

/// The canonical JSON form that `json_atomic::canonize` gives a
/// `serde_json` value; `None` where it refuses the value.
pub uninterp spec fn canonical_json_bytes(value: serde_json::Value) -> Option<Seq<u8>>;

/// Serialises a JSON value with `json_atomic::canonize` (sorted keys, NFC
/// strings, integers only, no whitespace), the error turned into its message.
///
/// Trusted: the bytes are the named canonical form, and it fails exactly
/// where that is `None`. The error's message is not stated.
#[verifier::external_body]
pub(crate) fn canonize_json(value: &serde_json::Value) -> (res: Result<Vec<u8>, String>)
    ensures
        match res {
            Ok(b) => canonical_json_bytes(*value) == Some(b@),
            Err(_) => canonical_json_bytes(*value) is None,
        },
{
    match json_atomic::canonize(value) {
        Ok(bytes) => Ok(bytes),
        Err(e) => Err(e.to_string()),
    }
}

/// A JSON scalar of a flat JSON object: an integer or a string.
pub enum JsonScalar {
    Int(i64),
    Str(String),
}

/// What a JSON scalar holds.
pub enum JsonScalarView {
    Int(i64),
    Str(Seq<char>),
}

impl View for JsonScalar {
    type V = JsonScalarView;

    open spec fn view(&self) -> JsonScalarView {
        match self {
            JsonScalar::Int(i) => JsonScalarView::Int(*i),
            JsonScalar::Str(s) => JsonScalarView::Str(s@),
        }
    }
}

/// A flat JSON object: its members (name and scalar value) in order.
pub struct JsonObject {
    pub members: Vec<(String, JsonScalar)>,
}

impl View for JsonObject {
    type V = Seq<(Seq<char>, JsonScalarView)>;

    open spec fn view(&self) -> Seq<(Seq<char>, JsonScalarView)> {
        self.members@.map_values(|m: (String, JsonScalar)| (m.0@, m.1@))
    }
}

/// The canonical JSON form (that of `json_atomic::canonize`) of a flat JSON
/// object with these members.
pub uninterp spec fn canonical_json_object(members: Seq<(Seq<char>, JsonScalarView)>) -> Seq<u8>;

/// Converts a flat JSON object one for one into a `serde_json::Value`
/// object (`serde_json::Map` of `Value` integers and strings).
///
/// Trusted: canonizing the result succeeds and gives the named canonical
/// form of the object. It holds no float, the one value that
/// `json_atomic::canonize` refuses.
#[verifier::external_body]
pub(crate) fn json_object_value(o: &JsonObject) -> (v: serde_json::Value)
    ensures
        canonical_json_bytes(v) == Some(canonical_json_object(o@)),
{
    let map: serde_json::Map<String, serde_json::Value> = o.members.iter().map(|(k, s)| match s {
        JsonScalar::Int(i) => (k.clone(), serde_json::Value::from(*i)),
        JsonScalar::Str(t) => (k.clone(), serde_json::Value::from(t.as_str())),
    }).collect();
    serde_json::Value::Object(map)
}

} // verus!
