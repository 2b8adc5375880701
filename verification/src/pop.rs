//! Proof-of-Possession headers for request signing (RFC-0001).
//!
//! The `X-UBL-POW` header proves that a wallet holds its private key and
//! authorizes one HTTP request. Wire format v1:
//!
//! ```text
//! X-UBL-POW: <payload_b64>.<signature_b64>.<wallet_did>
//! ```
//!
//! - `payload_b64` = base64url(canonical_json(payload))
//! - `signature_b64` = base64url(Ed25519_sign(payload_bytes))
//! - `wallet_did` = the wallet's DID (`did:key:z...`)
//!
//! The payload is `{"v":1,"m":<method>,"p":<path>,"ts":<unix secs>,"ath":<binding>}`,
//! where the optional `ath` = `blake3:<hex>` of the Bearer access token
//! binds the PoP to that token.
//!
//! Reading the JSON of a payload is left to the caller: [`Pop::decode`]
//! takes the outcome of parsing the bytes that [`Pop::decode_payload_bytes`]
//! gives.
use vstd::prelude::*;

use crate::cid::hex_lower;
use crate::crypto::{
    blake3_digest, blake3_hash, ed25519_key_decodes, ed25519_key_is_valid, ed25519_verifies_strict,
    ed25519_verify_strict, clock_now, clock_reading,
};
use crate::did::{key_bytes_of, key_did, parse_did, Did};
use crate::encoding::{
    b64url_decode, b64url_encode, base64url_decoding, base64url_encoding, canonical_json_object,
    JsonObject, JsonScalar, JsonScalarView,
};
use crate::text::{chars_of, pieces, split, split_bounds};
use crate::wallet::{signed_pop, wallet_keys_ok, Wallet};

verus! {

/// Why a PoP was refused, with messages as characters.
pub enum PopFault {
    InvalidEncoding(Seq<char>),
    InvalidJson(Seq<char>),
    MissingField(Seq<char>),
    UnsupportedVersion(i32),
    TimestampSkew,
    RequestMismatch,
    TokenMismatch,
    SignatureFailed,
    InvalidDid,
    InvalidWireFormat,
}

/// PoP verification errors.
#[derive(Debug)]
pub enum PopError {
    InvalidEncoding(String),
    InvalidJson(String),
    MissingField(String),
    UnsupportedVersion(i32),
    TimestampSkew,
    RequestMismatch,
    TokenMismatch,
    SignatureFailed,
    InvalidDid,
    InvalidWireFormat,
}

impl View for PopError {
    type V = PopFault;

    open spec fn view(&self) -> PopFault {
        match self {
            PopError::InvalidEncoding(m) => PopFault::InvalidEncoding(m@),
            PopError::InvalidJson(m) => PopFault::InvalidJson(m@),
            PopError::MissingField(m) => PopFault::MissingField(m@),
            PopError::UnsupportedVersion(v) => PopFault::UnsupportedVersion(*v),
            PopError::TimestampSkew => PopFault::TimestampSkew,
            PopError::RequestMismatch => PopFault::RequestMismatch,
            PopError::TokenMismatch => PopFault::TokenMismatch,
            PopError::SignatureFailed => PopFault::SignatureFailed,
            PopError::InvalidDid => PopFault::InvalidDid,
            PopError::InvalidWireFormat => PopFault::InvalidWireFormat,
        }
    }
}

/// The decimal digits of a natural number.
pub open spec fn decimal_digits(n: nat) -> Seq<char>
    decreases n,
{
    if n < 10 {
        seq!["0123456789"@[n as int]]
    } else {
        decimal_digits(n / 10) + seq!["0123456789"@[(n % 10) as int]]
    }
}

/// An integer in decimal, with a leading `-` when negative.
pub open spec fn decimal(i: int) -> Seq<char> {
    if i < 0 {
        seq!['-'] + decimal_digits((-i) as nat)
    } else {
        decimal_digits(i as nat)
    }
}

/// Appends the decimal digits of a number.
fn push_decimal(out: &mut String, n: u64)
    ensures
        final(out)@ == old(out)@ + decimal_digits(n as nat),
    decreases n,
{
    let digits = "0123456789";
    proof {
        reveal_strlit("0123456789");
    }
    if n >= 10 {
        push_decimal(out, n / 10);
    }
    let d = (n % 10) as usize;
    out.append(digits.substring_char(d, d + 1));
}

/// The human-readable text of a PoP error.
pub open spec fn pop_error_text(e: PopFault) -> Seq<char> {
    match e {
        PopFault::InvalidEncoding(m) => "invalid encoding: "@ + m,
        PopFault::InvalidJson(m) => "invalid JSON: "@ + m,
        PopFault::MissingField(m) => "missing field: "@ + m,
        PopFault::UnsupportedVersion(v) => "unsupported version: "@ + decimal(v as int),
        PopFault::TimestampSkew => "timestamp skew too large"@,
        PopFault::RequestMismatch => "request binding mismatch"@,
        PopFault::TokenMismatch => "token binding mismatch"@,
        PopFault::SignatureFailed => "signature verification failed"@,
        PopFault::InvalidDid => "invalid wallet DID"@,
        PopFault::InvalidWireFormat => "invalid wire format"@,
    }
}

impl PopError {
    /// The error's message.
    pub fn to_string(&self) -> (s: String)
        ensures
            s@ == pop_error_text(self@),
    {
        match self {
            PopError::InvalidEncoding(m) => {
                let mut s = "invalid encoding: ".to_owned();
                s.append(m.as_str());
                s
            },
            PopError::InvalidJson(m) => {
                let mut s = "invalid JSON: ".to_owned();
                s.append(m.as_str());
                s
            },
            PopError::MissingField(m) => {
                let mut s = "missing field: ".to_owned();
                s.append(m.as_str());
                s
            },
            PopError::UnsupportedVersion(v) => {
                let mut s = "unsupported version: ".to_owned();
                let v = *v;
                if v < 0 {
                    s.append("-");
                    proof {
                        reveal_strlit("-");
                    }
                    push_decimal(&mut s, (-(v as i64)) as u64);
                } else {
                    push_decimal(&mut s, v as u64);
                }
                assert(s@ =~= "unsupported version: "@ + decimal(v as int));
                s
            },
            PopError::TimestampSkew => "timestamp skew too large".to_owned(),
            PopError::RequestMismatch => "request binding mismatch".to_owned(),
            PopError::TokenMismatch => "token binding mismatch".to_owned(),
            PopError::SignatureFailed => "signature verification failed".to_owned(),
            PopError::InvalidDid => "invalid wallet DID".to_owned(),
            PopError::InvalidWireFormat => "invalid wire format".to_owned(),
        }
    }
}

/// PoP payload v1 (the signed portion).
#[derive(Debug)]
pub struct PopPayloadV1 {
    /// Version (must be 1)
    pub v: i32,
    /// HTTP method
    pub m: String,
    /// Path only (no scheme/host/query)
    pub p: String,
    /// Unix timestamp (seconds)
    pub ts: i64,
    /// Access token binding: `blake3:<hex>`
    pub ath: Option<String>,
}

/// The members of the JSON object of a payload: `v`, `m`, `p`, `ts`, and
/// `ath` only when there is one.
pub open spec fn payload_members(
    v: i32,
    m: Seq<char>,
    p: Seq<char>,
    ts: i64,
    ath: Option<Seq<char>>,
) -> Seq<(Seq<char>, JsonScalarView)> {
    seq![
        ("v"@, JsonScalarView::Int(v as i64)),
        ("m"@, JsonScalarView::Str(m)),
        ("p"@, JsonScalarView::Str(p)),
        ("ts"@, JsonScalarView::Int(ts)),
    ] + match ath {
        Some(a) => seq![("ath"@, JsonScalarView::Str(a))],
        None => Seq::empty(),
    }
}

/// The members of the JSON object of a payload.
pub open spec fn payload_json(payload: PopPayloadV1) -> Seq<(Seq<char>, JsonScalarView)> {
    payload_members(
        payload.v,
        payload.m@,
        payload.p@,
        payload.ts,
        match payload.ath {
            Some(a) => Some(a@),
            None => None,
        },
    )
}

/// The canonical JSON bytes of a payload: what a wallet signs.
pub open spec fn canonical_payload(payload: PopPayloadV1) -> Seq<u8> {
    canonical_json_object(payload_json(payload))
}

impl PopPayloadV1 {
    /// The payload as a flat JSON object.
    pub fn to_json_object(&self) -> (o: JsonObject)
        ensures
            o@ == payload_json(*self),
    {
        let mut members: Vec<(String, JsonScalar)> = Vec::new();
        members.push(("v".to_owned(), JsonScalar::Int(self.v as i64)));
        members.push(("m".to_owned(), JsonScalar::Str(self.m.clone())));
        members.push(("p".to_owned(), JsonScalar::Str(self.p.clone())));
        members.push(("ts".to_owned(), JsonScalar::Int(self.ts)));
        match &self.ath {
            Some(a) => {
                members.push(("ath".to_owned(), JsonScalar::Str(a.clone())));
            },
            None => {},
        }
        let o = JsonObject { members };
        assert(o@ =~= payload_json(*self));
        o
    }
}

/// Proof-of-Possession header (decoded).
#[derive(Debug)]
pub struct Pop {
    /// The payload that was signed
    pub payload: PopPayloadV1,
    /// The canonical payload bytes (what the signature covers)
    pub payload_bytes: Vec<u8>,
    /// The signature (64 bytes)
    pub signature: [u8; 64],
    /// The wallet DID
    pub wallet_did: String,
}

/// The token binding of an access token: `blake3:` and the lower-case hex
/// BLAKE3 hash of its UTF-8 bytes.
pub open spec fn token_binding(token: Seq<char>) -> Seq<char> {
    "blake3:"@ + hex_lower(blake3_digest(vstd::utf8::encode_utf8(token)))
}

/// The token binding of an access token: `blake3:<hex of its BLAKE3 hash>`.
pub fn token_binding_of(token: &str) -> (a: String)
    ensures
        a@ == token_binding(token@),
{
    let digest = blake3_hash(token.as_bytes());
    let hex = crate::cid::to_hex_lower(digest.as_slice());
    let mut a = "blake3:".to_owned();
    a.append(hex.as_str());
    a
}

/// An ASCII letter in lower case; other bytes unchanged.
pub open spec fn ascii_lower(b: u8) -> u8 {
    if 65 <= b && b <= 90 {
        (b + 32) as u8
    } else {
        b
    }
}

/// Byte strings equal up to ASCII case (`str::eq_ignore_ascii_case`).
pub open spec fn eq_ignore_ascii_case(a: Seq<u8>, b: Seq<u8>) -> bool {
    a.len() == b.len() && forall|i: int| 0 <= i < a.len() ==> ascii_lower(a[i]) == ascii_lower(b[i])
}

/// Whether `ts` lies more than `max_skew` seconds away from `now`.
pub open spec fn skew_exceeded(now: i64, ts: i64, max_skew: i64) -> bool {
    now - ts > max_skew || ts - now > max_skew
}

/// What checking a PoP against a request at time `now` gives: success, or
/// the first check that fails, in this order: version, request binding
/// (method up to ASCII case, path exactly), timestamp skew, token binding,
/// wallet DID and key, signature over the payload bytes.
pub open spec fn pop_verdict(
    pop: Pop,
    method: Seq<char>,
    path: Seq<char>,
    max_skew: i64,
    token: Option<Seq<char>>,
    now: i64,
) -> Result<(), PopFault> {
    if pop.payload.v != 1 {
        Err(PopFault::UnsupportedVersion(pop.payload.v))
    } else if !eq_ignore_ascii_case(
        vstd::utf8::encode_utf8(pop.payload.m@),
        vstd::utf8::encode_utf8(method),
    ) || pop.payload.p@ != path {
        Err(PopFault::RequestMismatch)
    } else if skew_exceeded(now, pop.payload.ts, max_skew) {
        Err(PopFault::TimestampSkew)
    } else if (match (pop.payload.ath, token) {
        (Some(a), Some(t)) => a@ != token_binding(t),
        (Some(_), None) => true,
        (None, _) => false,
    }) {
        Err(PopFault::TokenMismatch)
    } else {
        match parse_did(pop.wallet_did@) {
            Err(_) => Err(PopFault::InvalidDid),
            Ok(m) => match key_bytes_of(pop.wallet_did@, m) {
                None => Err(PopFault::InvalidDid),
                Some(pk) => if !ed25519_key_decodes(pk) {
                    Err(PopFault::InvalidDid)
                } else if !ed25519_verifies_strict(pk, pop.payload_bytes@, pop.signature@) {
                    Err(PopFault::SignatureFailed)
                } else {
                    Ok(())
                },
            },
        }
    }
}

/// The characters of an optional access token.
pub open spec fn token_view(t: Option<&str>) -> Option<Seq<char>> {
    match t {
        Some(s) => Some(s@),
        None => None,
    }
}

/// Whether a verification result is the one the verdict calls for: the
/// wallet DID on success, else the error of the first failing check.
pub open spec fn verification_outcome(
    pop: Pop,
    method: Seq<char>,
    path: Seq<char>,
    max_skew: i64,
    token: Option<Seq<char>>,
    now: i64,
    r: Result<Did, PopError>,
) -> bool {
    match r {
        Ok(d) => pop_verdict(pop, method, path, max_skew, token, now) == Ok::<(), PopFault>(())
            && d@ == pop.wallet_did@,
        Err(e) => pop_verdict(pop, method, path, max_skew, token, now) == Err::<(), PopFault>(e@),
    }
}

/// A PoP checked at a time more than the allowed skew away from its
/// timestamp is never accepted, and, when its version and request binding
/// pass, it is refused for the timestamp skew. One that is accepted was
/// checked within the skew of its timestamp.
pub proof fn law_stale_pop_refused(
    pop: Pop,
    method: Seq<char>,
    path: Seq<char>,
    max_skew: i64,
    token: Option<Seq<char>>,
    now: i64,
    r: Result<Did, PopError>,
)
    requires
        verification_outcome(pop, method, path, max_skew, token, now, r),
    ensures
        now - pop.payload.ts > max_skew || pop.payload.ts - now > max_skew ==> r is Err,
        (now - pop.payload.ts > max_skew || pop.payload.ts - now > max_skew) && pop.payload.v == 1
            && eq_ignore_ascii_case(
            vstd::utf8::encode_utf8(pop.payload.m@),
            vstd::utf8::encode_utf8(method),
        ) && pop.payload.p@ == path ==> (r matches Err(e) && e@ == PopFault::TimestampSkew),
        r is Ok ==> -max_skew <= now - pop.payload.ts <= max_skew,
{
}

/// The wire form of a PoP: `base64url(payload).base64url(signature).wallet_did`.
pub open spec fn wire_form(payload_bytes: Seq<u8>, signature: Seq<u8>, wallet_did: Seq<char>) -> Seq<char> {
    base64url_encoding(payload_bytes) + "."@ + base64url_encoding(signature) + "."@ + wallet_did
}

/// The payload bytes a header carries, or why it is refused.
pub open spec fn header_payload_bytes(h: Seq<char>) -> Result<Seq<u8>, PopFault> {
    let parts = split(h, '.');
    if parts.len() != 3 {
        Err(PopFault::InvalidWireFormat)
    } else {
        match base64url_decoding(vstd::utf8::encode_utf8(parts[0])) {
            None => Err(PopFault::InvalidEncoding("payload base64"@)),
            Some(b) => Ok(b),
        }
    }
}

/// The signature a header carries, or why it is refused (after its payload
/// has been read).
pub open spec fn header_signature(h: Seq<char>) -> Result<Seq<u8>, PopFault> {
    let parts = split(h, '.');
    match base64url_decoding(vstd::utf8::encode_utf8(parts[1])) {
        None => Err(PopFault::InvalidEncoding("signature base64"@)),
        Some(s) => if s.len() != 64 {
            Err(PopFault::InvalidEncoding("signature must be 64 bytes"@))
        } else {
            Ok(s)
        },
    }
}

/// Why decoding a header, given the outcome of parsing its payload's JSON,
/// fails: in this order, the wire format and the payload's base64, the
/// JSON, the version, the signature's base64 and length. `None` on success.
pub open spec fn decode_refusal(h: Seq<char>, parsed: Result<PopPayloadV1, String>) -> Option<PopFault> {
    match header_payload_bytes(h) {
        Err(f) => Some(f),
        Ok(_) => match parsed {
            Err(m) => Some(PopFault::InvalidJson(m@)),
            Ok(p) => if p.v != 1 {
                Some(PopFault::UnsupportedVersion(p.v))
            } else {
                match header_signature(h) {
                    Err(f) => Some(f),
                    Ok(_) => None,
                }
            },
        },
    }
}

/// A PoP made of a header's parts: the parsed payload, the payload bytes
/// and the signature it carries, and its third part as the wallet DID.
pub open spec fn decoded_from(pop: Pop, h: Seq<char>, parsed: Result<PopPayloadV1, String>) -> bool {
    &&& parsed matches Ok(p) && pop.payload == p
    &&& header_payload_bytes(h) == Ok::<Seq<u8>, PopFault>(pop.payload_bytes@)
    &&& header_signature(h) == Ok::<Seq<u8>, PopFault>(pop.signature@)
    &&& pop.wallet_did@ == split(h, '.')[2]
}

impl Pop {
    /// Encodes the X-UBL-POW header value (wire format v1).
    pub fn encode(&self) -> (s: String)
        ensures
            s@ == wire_form(self.payload_bytes@, self.signature@, self.wallet_did@),
            (forall|i: int| 0 <= i < self.wallet_did@.len() ==> self.wallet_did@[i] != '.') ==> {
                &&& split(s@, '.').len() == 3
                &&& split(s@, '.')[2] == self.wallet_did@
                &&& header_payload_bytes(s@) == Ok::<Seq<u8>, PopFault>(self.payload_bytes@)
                &&& header_signature(s@) == Ok::<Seq<u8>, PopFault>(self.signature@)
                &&& self.payload.v == 1 ==> decode_refusal(
                    s@,
                    Ok::<PopPayloadV1, String>(self.payload),
                ) is None
            },
    {
        let mut s = b64url_encode(self.payload_bytes.as_slice());
        s.append(".");
        let sig = b64url_encode(self.signature.as_slice());
        s.append(sig.as_str());
        s.append(".");
        s.append(self.wallet_did.as_str());
        proof {
            reveal_strlit(".");
            let a = base64url_encoding(self.payload_bytes@);
            let b = base64url_encoding(self.signature@);
            assert(s@ =~= a + seq!['.'] + b + seq!['.'] + self.wallet_did@);
            if forall|i: int| 0 <= i < self.wallet_did@.len() ==> self.wallet_did@[i] != '.' {
                assert forall|i: int| 0 <= i < a.len() implies a[i] != '.' by {
                    assert(crate::encoding::is_base64url_char(a[i]));
                }
                assert forall|i: int| 0 <= i < b.len() implies b[i] != '.' by {
                    assert(crate::encoding::is_base64url_char(b[i]));
                }
                crate::text::lemma_split3(a, b, self.wallet_did@, '.');
            }
        }
        s
    }

    /// Splits an X-UBL-POW header value into its three parts and decodes
    /// the payload part: the bytes whose JSON [`Pop::decode`] takes.
    pub fn decode_payload_bytes(header: &str) -> (r: Result<Vec<u8>, PopError>)
        ensures
            match r {
                Ok(b) => header_payload_bytes(header@) == Ok::<Seq<u8>, PopFault>(b@),
                Err(e) => header_payload_bytes(header@) == Err::<Seq<u8>, PopFault>(e@),
            },
    {
        let v = chars_of(header);
        let b = split_bounds(&v, '.');
        if b.len() != 3 {
            return Err(PopError::InvalidWireFormat);
        }
        let (from, to) = b[0];
        assert(pieces(v@, b@)[0] == v@.subrange(from as int, to as int));
        let part = header.substring_char(from, to);
        match b64url_decode(part.as_bytes()) {
            Some(bytes) => Ok(bytes),
            None => Err(PopError::InvalidEncoding("payload base64".to_owned())),
        }
    }

    /// Decodes an X-UBL-POW header value, given the outcome of parsing the
    /// JSON of its payload bytes (those of [`Pop::decode_payload_bytes`];
    /// `Err` holds the parser's message).
    pub fn decode(header: &str, parsed: Result<PopPayloadV1, String>) -> (r: Result<Pop, PopError>)
        ensures
            match decode_refusal(header@, parsed) {
                Some(f) => r matches Err(e) && e@ == f,
                None => r matches Ok(pop) && decoded_from(pop, header@, parsed),
            },
    {
        let payload_bytes = match Pop::decode_payload_bytes(header) {
            Ok(b) => b,
            Err(e) => {
                return Err(e);
            },
        };
        let payload = match parsed {
            Ok(p) => p,
            Err(m) => {
                return Err(PopError::InvalidJson(m));
            },
        };
        if payload.v != 1 {
            return Err(PopError::UnsupportedVersion(payload.v));
        }
        let v = chars_of(header);
        let b = split_bounds(&v, '.');
        assert(b@.len() == 3);
        let (s0, s1) = b[1];
        let (d0, d1) = b[2];
        assert(pieces(v@, b@)[1] == v@.subrange(s0 as int, s1 as int));
        assert(pieces(v@, b@)[2] == v@.subrange(d0 as int, d1 as int));
        let sig_part = header.substring_char(s0, s1);
        let sig_bytes = match b64url_decode(sig_part.as_bytes()) {
            Some(s) => s,
            None => {
                return Err(PopError::InvalidEncoding("signature base64".to_owned()));
            },
        };
        if sig_bytes.len() != 64 {
            return Err(PopError::InvalidEncoding("signature must be 64 bytes".to_owned()));
        }
        let mut signature = [0u8; 64];
        for i in 0..64
            invariant
                sig_bytes@.len() == 64,
                forall|j: int| 0 <= j < i ==> signature@[j] == sig_bytes@[j],
        {
            signature[i] = sig_bytes[i];
        }
        assert(signature@ =~= sig_bytes@);
        let wallet_did = header.substring_char(d0, d1).to_owned();
        Ok(Pop { payload, payload_bytes, signature, wallet_did })
    }

    /// Checks the PoP against a request at time `now`: version, method (up
    /// to ASCII case) and path, timestamp within `max_skew_secs` of `now`,
    /// the token binding when the payload has one, and the signature of the
    /// payload bytes under the wallet DID's key. Gives the wallet DID.
    pub fn verify_at(
        &self,
        expected_method: &str,
        expected_path: &str,
        max_skew_secs: i64,
        access_token: Option<&str>,
        now: i64,
    ) -> (r: Result<Did, PopError>)
        ensures
            verification_outcome(
                *self,
                expected_method@,
                expected_path@,
                max_skew_secs,
                token_view(access_token),
                now,
                r,
            ),
    {
        if self.payload.v != 1 {
            return Err(PopError::UnsupportedVersion(self.payload.v));
        }
        if !ascii_case_insensitive_eq(self.payload.m.as_str(), expected_method) || !str_eq(
            self.payload.p.as_str(),
            expected_path,
        ) {
            return Err(PopError::RequestMismatch);
        }
        let diff: i128 = (now as i128) - (self.payload.ts as i128);
        if diff > max_skew_secs as i128 || -diff > max_skew_secs as i128 {
            return Err(PopError::TimestampSkew);
        }
        match &self.payload.ath {
            Some(ath) => match access_token {
                None => {
                    return Err(PopError::TokenMismatch);
                },
                Some(token) => {
                    let expected = token_binding_of(token);
                    if !str_eq(ath.as_str(), expected.as_str()) {
                        return Err(PopError::TokenMismatch);
                    }
                },
            },
            None => {},
        }
        let did = match Did::parse(self.wallet_did.as_str()) {
            Ok(d) => d,
            Err(_) => {
                return Err(PopError::InvalidDid);
            },
        };
        let pk = match did.key_bytes() {
            Some(k) => k,
            None => {
                return Err(PopError::InvalidDid);
            },
        };
        if !ed25519_key_is_valid(&pk) {
            return Err(PopError::InvalidDid);
        }
        if !ed25519_verify_strict(&pk, self.payload_bytes.as_slice(), &self.signature) {
            return Err(PopError::SignatureFailed);
        }
        Ok(did)
    }

    /// Checks the PoP against a request at the time the clock reads when it
    /// is called (see [`Pop::verify_at`]).
    pub fn verify(
        &self,
        expected_method: &str,
        expected_path: &str,
        max_skew_secs: i64,
        access_token: Option<&str>,
    ) -> (r: Result<Did, PopError>)
        ensures
            exists|now: i64|
                clock_reading(now) && #[trigger] verification_outcome(
                    *self,
                    expected_method@,
                    expected_path@,
                    max_skew_secs,
                    token_view(access_token),
                    now,
                    r,
                ),
    {
        let now = clock_now();
        self.verify_at(expected_method, expected_path, max_skew_secs, access_token, now)
    }

    /// The method from the payload.
    pub fn method(&self) -> (m: &str)
        ensures
            m@ == self.payload.m@,
    {
        self.payload.m.as_str()
    }

    /// The path from the payload.
    pub fn path(&self) -> (p: &str)
        ensures
            p@ == self.payload.p@,
    {
        self.payload.p.as_str()
    }

    /// The timestamp from the payload.
    pub fn ts(&self) -> (t: i64)
        ensures
            t == self.payload.ts,
    {
        self.payload.ts
    }
}

impl Clone for PopPayloadV1 {
    fn clone(&self) -> (c: PopPayloadV1)
        ensures
            c == *self,
    {
        let ath = match &self.ath {
            Some(a) => Some(a.clone()),
            None => None,
        };
        PopPayloadV1 { v: self.v, m: self.m.clone(), p: self.p.clone(), ts: self.ts, ath }
    }
}

impl Clone for Pop {
    fn clone(&self) -> (c: Pop)
        ensures
            c.payload == self.payload,
            c.payload_bytes@ == self.payload_bytes@,
            c.signature == self.signature,
            c.wallet_did == self.wallet_did,
    {
        Pop {
            payload: self.payload.clone(),
            payload_bytes: self.payload_bytes.clone(),
            signature: self.signature,
            wallet_did: self.wallet_did.clone(),
        }
    }
}

/// Verifies an X-UBL-POW header value (decode, then verify now), given the
/// outcome of parsing the JSON of its payload bytes.
pub fn verify_pop(
    header: &str,
    parsed: Result<PopPayloadV1, String>,
    method: &str,
    path: &str,
    max_skew_secs: i64,
    access_token: Option<&str>,
) -> (r: Result<Did, PopError>)
    ensures
        match decode_refusal(header@, parsed) {
            Some(f) => r matches Err(e) && e@ == f,
            None => exists|pop: Pop, now: i64|
                decoded_from(pop, header@, parsed) && clock_reading(now) && #[trigger] verification_outcome(
                    pop,
                    method@,
                    path@,
                    max_skew_secs,
                    token_view(access_token),
                    now,
                    r,
                ),
        },
{
    let pop = match Pop::decode(header, parsed) {
        Ok(p) => p,
        Err(e) => {
            return Err(e);
        },
    };
    pop.verify(method, path, max_skew_secs, access_token)
}

/// Builds an X-UBL-POW header value: restores the wallet of a base64url
/// private key and signs the request now, bound to the access token when
/// one is given. Wallet errors come back as `InvalidEncoding` with their
/// message.
pub fn build_pop_header(method: &str, path: &str, priv_b64: &str, access_token: Option<&str>) -> (r:
    Result<String, PopError>)
    ensures
        match base64url_decoding(vstd::utf8::encode_utf8(priv_b64@)) {
            None => r matches Err(e) && e@ == PopFault::InvalidEncoding(
                "invalid key encoding: bad base64"@,
            ),
            Some(sk) => if sk.len() != 32 {
                r matches Err(e) && e@ == PopFault::InvalidEncoding(
                    "invalid key encoding: expected 32 bytes"@,
                )
            } else {
                r matches Ok(s) && exists|pop: Pop|
                    clock_reading(pop.payload.ts) && #[trigger] signed_pop(
                        pop,
                        sk,
                        key_did(crate::crypto::ed25519_public_key(sk)),
                        method@,
                        path@,
                        token_view(access_token),
                        pop.payload.ts,
                    ) && s@ == wire_form(pop.payload_bytes@, pop.signature@, pop.wallet_did@)
                        && decodes_back(s@, pop)
            },
        },
{
    let wallet = match Wallet::from_priv_b64(priv_b64) {
        Ok(w) => w,
        Err(e) => {
            proof {
                reveal_strlit("invalid key encoding: ");
                reveal_strlit("bad base64");
                reveal_strlit("expected 32 bytes");
                reveal_strlit("invalid key encoding: bad base64");
                reveal_strlit("invalid key encoding: expected 32 bytes");
                assert("invalid key encoding: "@ + "bad base64"@ =~= "invalid key encoding: bad base64"@);
                assert("invalid key encoding: "@ + "expected 32 bytes"@
                    =~= "invalid key encoding: expected 32 bytes"@);
            }
            return Err(PopError::InvalidEncoding(e.to_string()));
        },
    };
    let signed = match access_token {
        Some(token) => wallet.sign_pop_with_ath(method, path, token),
        None => wallet.sign_pop(method, path),
    };
    match signed {
        Ok(pop) => Ok(pop.encode()),
        Err(e) => Err(PopError::InvalidEncoding(e.to_string())),
    }
}

/// A header decodes back to a PoP: decoding it, given that PoP's payload
/// as what its payload bytes parse to, succeeds, and every PoP it decodes to
/// has that payload, those payload bytes, that signature and that DID.
pub open spec fn decodes_back(h: Seq<char>, pop: Pop) -> bool {
    &&& decode_refusal(h, Ok::<PopPayloadV1, String>(pop.payload)) is None
    &&& forall|d: Pop|
        #[trigger] decoded_from(d, h, Ok::<PopPayloadV1, String>(pop.payload)) ==> {
            &&& d.payload == pop.payload
            &&& d.payload_bytes@ == pop.payload_bytes@
            &&& d.signature@ == pop.signature@
            &&& d.wallet_did@ == pop.wallet_did@
        }
}

/// A header that a wallet built for a request, decoded on the other side
/// with the payload its bytes carry, reads back the request's method and
/// path and the canonical JSON of its payload, and passes verification of
/// that request with the token it was bound to, at any time within the
/// allowed skew of its timestamp, provided its signature passes Ed25519's
/// strict check under the wallet's key.
pub proof fn law_built_header_verifies(
    h: Seq<char>,
    pop: Pop,
    decoded: Pop,
    secret: Seq<u8>,
    did: Seq<char>,
    method: Seq<char>,
    path: Seq<char>,
    token: Option<Seq<char>>,
    max_skew: i64,
    now: i64,
)
    requires
        wallet_keys_ok(secret, did),
        signed_pop(pop, secret, did, method, path, token, pop.payload.ts),
        decodes_back(h, pop),
        decoded_from(decoded, h, Ok::<PopPayloadV1, String>(pop.payload)),
        !skew_exceeded(now, pop.payload.ts, max_skew),
        ed25519_verifies_strict(
            crate::crypto::ed25519_public_key(secret),
            pop.payload_bytes@,
            pop.signature@,
        ),
    ensures
        decoded.payload.v == 1,
        decoded.payload.m@ == method,
        decoded.payload.p@ == path,
        decoded.payload_bytes@ == canonical_payload(decoded.payload),
        pop_verdict(decoded, method, path, max_skew, token, now) == Ok::<(), PopFault>(()),
{
    assert(signed_pop(decoded, secret, did, method, path, token, decoded.payload.ts));
    law_signed_pop_verifies(decoded, secret, did, method, path, token, max_skew, now);
}

/// A PoP that a wallet signed for a request passes verification of that
/// request with the token it was bound to, at any time within the allowed
/// skew of its timestamp, provided its signature passes Ed25519's strict
/// check under the wallet's key.
pub proof fn law_signed_pop_verifies(
    pop: Pop,
    secret: Seq<u8>,
    did: Seq<char>,
    method: Seq<char>,
    path: Seq<char>,
    token: Option<Seq<char>>,
    max_skew: i64,
    now: i64,
)
    requires
        wallet_keys_ok(secret, did),
        signed_pop(pop, secret, did, method, path, token, pop.payload.ts),
        !skew_exceeded(now, pop.payload.ts, max_skew),
        ed25519_verifies_strict(
            crate::crypto::ed25519_public_key(secret),
            pop.payload_bytes@,
            pop.signature@,
        ),
    ensures
        pop_verdict(pop, method, path, max_skew, token, now) == Ok::<(), PopFault>(()),
{
}

/// A signed PoP is bound to its request and token: another method (up to
/// ASCII case) or path is refused as a request mismatch, and, within the
/// skew, a PoP bound to a token is refused as a token mismatch without a
/// token or with one of another binding.
pub proof fn law_signed_pop_is_bound(
    pop: Pop,
    secret: Seq<u8>,
    did: Seq<char>,
    method: Seq<char>,
    path: Seq<char>,
    token: Option<Seq<char>>,
    other_method: Seq<char>,
    other_path: Seq<char>,
    other_token: Option<Seq<char>>,
    max_skew: i64,
    now: i64,
)
    requires
        signed_pop(pop, secret, did, method, path, token, pop.payload.ts),
    ensures
        !eq_ignore_ascii_case(
            vstd::utf8::encode_utf8(method),
            vstd::utf8::encode_utf8(other_method),
        ) || path != other_path ==> pop_verdict(pop, other_method, other_path, max_skew, other_token, now)
            == Err::<(), PopFault>(PopFault::RequestMismatch),
        (token matches Some(t) && !skew_exceeded(now, pop.payload.ts, max_skew) && match other_token {
            Some(o) => token_binding(o) != token_binding(t),
            None => true,
        }) ==> pop_verdict(pop, method, path, max_skew, other_token, now) == Err::<(), PopFault>(
            PopFault::TokenMismatch,
        ),
{
    let m = vstd::utf8::encode_utf8(method);
    assert(eq_ignore_ascii_case(m, m));
}

/// Whether two strings are equal.
fn str_eq(a: &str, b: &str) -> (r: bool)
    ensures
        r == (a@ == b@),
{
    let av = chars_of(a);
    let bv = chars_of(b);
    if av.len() != bv.len() {
        return false;
    }
    let mut i: usize = 0;
    while i < av.len()
        invariant
            av@ == a@,
            bv@ == b@,
            av.len() == bv.len(),
            i <= av.len(),
            forall|j: int| 0 <= j < i ==> av@[j] == bv@[j],
        decreases av.len() - i,
    {
        if av[i] != bv[i] {
            return false;
        }
        i += 1;
    }
    assert(a@ =~= b@);
    true
}

/// Whether two strings are equal up to ASCII case, byte by byte.
fn ascii_case_insensitive_eq(a: &str, b: &str) -> (r: bool)
    ensures
        r == eq_ignore_ascii_case(vstd::utf8::encode_utf8(a@), vstd::utf8::encode_utf8(b@)),
{
    let ab = a.as_bytes();
    let bb = b.as_bytes();
    if ab.len() != bb.len() {
        return false;
    }
    let mut i: usize = 0;
    while i < ab.len()
        invariant
            ab@ == vstd::utf8::encode_utf8(a@),
            bb@ == vstd::utf8::encode_utf8(b@),
            ab@.len() == bb@.len(),
            i <= ab@.len(),
            forall|j: int| 0 <= j < i ==> ascii_lower(ab@[j]) == ascii_lower(bb@[j]),
        decreases ab@.len() - i,
    {
        let x = ab[i];
        let y = bb[i];
        let lx = if 65 <= x && x <= 90 {
            x + 32
        } else {
            x
        };
        let ly = if 65 <= y && y <= 90 {
            y + 32
        } else {
            y
        };
        if lx != ly {
            return false;
        }
        i += 1;
    }
    true
}

} // verus!
