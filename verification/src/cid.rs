//! Content Identifiers for content-addressed data.
//!
//! A CID names content by the BLAKE3 hash of its bytes, as
//! `cid:blake3:<64 hex digits>`. JSON content is hashed in the canonical form
//! of `json_atomic` (sorted keys, NFC strings, no whitespace), so that
//! identical content gives an identical CID on every platform.
use vstd::prelude::*;

use crate::crypto::{blake3_digest, blake3_hash};
use crate::encoding::{canonical_json_bytes, canonize_json};
use crate::text::{chars_of, occurs_at, pieces, range_equals, splitn, splitn_bounds};

verus! {

/// Why a CID was refused, with the message as characters.
pub enum CidFault {
    InvalidFormat(Seq<char>),
    UnsupportedAlgorithm(Seq<char>),
    InvalidEncoding(Seq<char>),
    JsonError(Seq<char>),
}

/// CID errors.
#[derive(Debug)]
pub enum CidError {
    /// Not of the form `cid:<algo>:<hash>`.
    InvalidFormat(String),
    /// An algorithm other than `blake3`.
    UnsupportedAlgorithm(String),
    /// A hash that is not 64 hex digits.
    InvalidEncoding(String),
    /// Content that could not be put in canonical JSON form.
    JsonError(String),
}

impl View for CidError {
    type V = CidFault;

    open spec fn view(&self) -> CidFault {
        match self {
            CidError::InvalidFormat(m) => CidFault::InvalidFormat(m@),
            CidError::UnsupportedAlgorithm(m) => CidFault::UnsupportedAlgorithm(m@),
            CidError::InvalidEncoding(m) => CidFault::InvalidEncoding(m@),
            CidError::JsonError(m) => CidFault::JsonError(m@),
        }
    }
}

/// The human-readable text of a CID error.
pub open spec fn cid_error_text(e: CidFault) -> Seq<char> {
    match e {
        CidFault::InvalidFormat(m) => "invalid CID format: "@ + m,
        CidFault::UnsupportedAlgorithm(m) => "unsupported hash algorithm: "@ + m,
        CidFault::InvalidEncoding(m) => "invalid hash encoding: "@ + m,
        CidFault::JsonError(m) => "json serialization error: "@ + m,
    }
}

impl CidError {
    /// The error's message.
    pub fn to_string(&self) -> (s: String)
        ensures
            s@ == cid_error_text(self@),
    {
        let (prefix, m) = match self {
            CidError::InvalidFormat(m) => ("invalid CID format: ", m),
            CidError::UnsupportedAlgorithm(m) => ("unsupported hash algorithm: ", m),
            CidError::InvalidEncoding(m) => ("invalid hash encoding: ", m),
            CidError::JsonError(m) => ("json serialization error: ", m),
        };
        let mut s = prefix.to_owned();
        s.append(m.as_str());
        s
    }
}

/// An ASCII hex digit (either case), as `char::is_ascii_hexdigit`.
pub open spec fn is_hex_digit(c: char) -> bool {
    ('0' <= c && c <= '9') || ('a' <= c && c <= 'f') || ('A' <= c && c <= 'F')
}

/// The value of a hex digit.
pub open spec fn hex_value(c: char) -> int {
    if '0' <= c && c <= '9' {
        c as int - '0' as int
    } else if 'a' <= c && c <= 'f' {
        c as int - 'a' as int + 10
    } else {
        c as int - 'A' as int + 10
    }
}

/// The lower-case hex digit of a value below 16.
pub open spec fn hex_digit(n: int) -> char {
    "0123456789abcdef"@[n]
}

/// Lower-case hex of some bytes, two digits per byte, high digit first.
pub open spec fn hex_lower(b: Seq<u8>) -> Seq<char> {
    Seq::new(
        2 * b.len(),
        |i: int|
            if i % 2 == 0 {
                hex_digit(b[i / 2] as int / 16)
            } else {
                hex_digit(b[i / 2] as int % 16)
            },
    )
}

/// The bytes that pairs of hex digits stand for.
pub open spec fn hex_bytes(h: Seq<char>) -> Seq<u8> {
    Seq::new(h.len() / 2, |i: int| (16 * hex_value(h[2 * i]) + hex_value(h[2 * i + 1])) as u8)
}

/// What parsing a CID string gives: its hash part, or why it is refused.
pub open spec fn parse_cid(s: Seq<char>) -> Result<Seq<char>, CidFault> {
    if !"cid:"@.is_prefix_of(s) {
        Err(CidFault::InvalidFormat("must start with 'cid:'"@))
    } else {
        let parts = splitn(s, ':', 3);
        if parts.len() != 3 {
            Err(CidFault::InvalidFormat("expected cid:algo:hash"@))
        } else if parts[1] != "blake3"@ {
            Err(CidFault::UnsupportedAlgorithm(parts[1]))
        } else if vstd::utf8::encode_utf8(parts[2]).len() != 64 {
            Err(CidFault::InvalidEncoding("blake3 hash must be 64 hex chars"@))
        } else if !(forall|i: int| 0 <= i < parts[2].len() ==> is_hex_digit(#[trigger] parts[2][i])) {
            Err(CidFault::InvalidEncoding("invalid hex characters"@))
        } else {
            Ok(parts[2])
        }
    }
}

/// The CID string of a hash given as hex digits.
pub open spec fn cid_string(hash: Seq<char>) -> Seq<char> {
    "cid:blake3:"@ + hash
}

/// The hex hash of some content.
pub open spec fn content_hash(bytes: Seq<u8>) -> Seq<char> {
    hex_lower(blake3_digest(bytes))
}

/// Whether a CID with the given hash names some content.
pub open spec fn verifies_content(hash: Seq<char>, bytes: Seq<u8>) -> bool {
    content_hash(bytes) == hash
}

/// The CID of some content verifies that content, and verifies other
/// content exactly when its hash is the same.
pub proof fn law_cid_verifies_its_content(bytes: Seq<u8>, other: Seq<u8>)
    ensures
        verifies_content(content_hash(bytes), bytes),
        verifies_content(content_hash(bytes), other) <==> blake3_digest(other) == blake3_digest(
            bytes,
        ),
{
    if hex_lower(blake3_digest(other)) == hex_lower(blake3_digest(bytes)) {
        law_hex_reads_back(blake3_digest(other));
        law_hex_reads_back(blake3_digest(bytes));
    }
}

/// Hex digits read back as the bytes they were made of.
pub proof fn law_hex_reads_back(b: Seq<u8>)
    ensures
        hex_bytes(hex_lower(b)) == b,
        hex_lower(b).len() == 2 * b.len(),
        forall|i: int| 0 <= i < hex_lower(b).len() ==> is_hex_digit(#[trigger] hex_lower(b)[i]),
        vstd::utf8::is_ascii_chars(hex_lower(b)),
{
    reveal_strlit("0123456789abcdef");
    let h = hex_lower(b);
    assert forall|n: int| 0 <= n < 16 implies is_hex_digit(#[trigger] hex_digit(n)) && hex_value(
        hex_digit(n),
    ) == n && '\0' <= hex_digit(n) <= '\u{7f}' by {}
    assert forall|i: int| 0 <= i < b.len() implies #[trigger] hex_bytes(h)[i] == b[i] by {
        assert(h[2 * i] == hex_digit(b[i] as int / 16));
        assert(h[2 * i + 1] == hex_digit(b[i] as int % 16));
    }
    assert(hex_bytes(h) =~= b);
}

/// A CID string made of 64 hex digits parses, with that hash.
pub proof fn lemma_cid_string_parses(hash: Seq<char>)
    requires
        hash.len() == 64,
        forall|i: int| 0 <= i < hash.len() ==> is_hex_digit(#[trigger] hash[i]),
    ensures
        parse_cid(cid_string(hash)) == Ok::<Seq<char>, CidFault>(hash),
{
    reveal_strlit("cid:blake3:");
    reveal_strlit("cid:");
    reveal_strlit("blake3");
    reveal_with_fuel(splitn, 3);
    let s = cid_string(hash);
    crate::text::lemma_index_of(s, ':');
    assert(s[3] == ':');
    assert(s.take(3) =~= seq!['c', 'i', 'd']);
    let r1 = s.skip(4);
    crate::text::lemma_index_of(r1, ':');
    assert(r1[6] == ':');
    assert(r1.take(6) =~= "blake3"@);
    assert(r1.skip(7) =~= hash);
    assert("cid:"@ =~= s.subrange(0, 4));
    assert(vstd::utf8::is_ascii_chars(hash));
    vstd::utf8::is_ascii_chars_encode_utf8(hash);
}

/// A Content Identifier: the full CID string and its hex hash part.
#[derive(Debug, Hash)]
pub struct Cid {
    raw: String,
    hash: String,
}

impl View for Cid {
    type V = Seq<char>;

    closed spec fn view(&self) -> Seq<char> {
        self.raw@
    }
}

/// The lower-case hex digits of some bytes.
pub(crate) fn to_hex_lower(b: &[u8]) -> (h: String)
    ensures
        h@ == hex_lower(b@),
{
    let digits = "0123456789abcdef";
    proof {
        reveal_strlit("0123456789abcdef");
    }
    let mut h = String::new();
    for i in 0..b.len()
        invariant
            digits@ == "0123456789abcdef"@,
            digits@.len() == 16,
            h@ == hex_lower(b@).take(2 * i),
    {
        let hi = (b[i] / 16) as usize;
        let lo = (b[i] % 16) as usize;
        h.append(digits.substring_char(hi, hi + 1));
        h.append(digits.substring_char(lo, lo + 1));
        assert(h@ =~= hex_lower(b@).take(2 * i + 2));
    }
    assert(h@ =~= hex_lower(b@));
    h
}

/// The value of one hex digit.
fn hex_digit_value(c: char) -> (v: u8)
    requires
        is_hex_digit(c),
    ensures
        v == hex_value(c),
{
    let n = c as u32;
    if '0' <= c && c <= '9' {
        (n - 48) as u8
    } else if 'a' <= c && c <= 'f' {
        (n - 87) as u8
    } else {
        (n - 55) as u8
    }
}

impl Cid {
    /// Every CID parses, with its hash part.
    #[verifier::type_invariant]
    closed spec fn wf(self) -> bool {
        parse_cid(self.raw@) == Ok::<Seq<char>, CidFault>(self.hash@)
    }

    /// The hash part of the CID (64 hex digits).
    pub closed spec fn spec_hash(self) -> Seq<char> {
        self.hash@
    }

    /// Creates the CID of some bytes: `cid:blake3:<hex of their BLAKE3 hash>`.
    pub fn from_bytes(bytes: &[u8]) -> (c: Cid)
        ensures
            c.spec_hash() == content_hash(bytes@),
            c@ == cid_string(content_hash(bytes@)),
            parse_cid(c@) == Ok::<Seq<char>, CidFault>(c.spec_hash()),
            hex_bytes(c.spec_hash()) == blake3_digest(bytes@),
    {
        let digest = blake3_hash(bytes);
        let hex = to_hex_lower(digest.as_slice());
        let mut raw = "cid:blake3:".to_owned();
        raw.append(hex.as_str());
        proof {
            law_hex_reads_back(digest@);
            lemma_cid_string_parses(hex@);
        }
        Cid { raw, hash: hex }
    }

    /// Creates the CID of content given as the outcome of putting it in
    /// canonical JSON form: the CID of the bytes, or the error's message.
    pub fn from_canonical_json(canonical: Result<Vec<u8>, String>) -> (r: Result<Cid, CidError>)
        ensures
            match canonical {
                Ok(b) => r matches Ok(c) && c.spec_hash() == content_hash(b@) && c@ == cid_string(
                    content_hash(b@),
                ),
                Err(m) => r matches Err(e) && e@ == CidFault::JsonError(m@),
            },
    {
        match canonical {
            Ok(bytes) => Ok(Cid::from_bytes(bytes.as_slice())),
            Err(m) => Err(CidError::JsonError(m)),
        }
    }

    /// Creates the CID of a JSON value in its canonical form (`json_atomic::canonize`).
    pub fn from_json(value: &serde_json::Value) -> (r: Result<Cid, CidError>)
        ensures
            match canonical_json_bytes(*value) {
                Some(b) => r matches Ok(c) && c.spec_hash() == content_hash(b) && c@ == cid_string(
                    content_hash(b),
                ),
                None => r matches Err(e) && e@ is JsonError,
            },
    {
        Cid::from_canonical_json(canonize_json(value))
    }

    /// Parses a CID string.
    pub fn parse(s: &str) -> (r: Result<Cid, CidError>)
        ensures
            match r {
                Ok(c) => parse_cid(s@) == Ok::<Seq<char>, CidFault>(c.spec_hash()) && c@ == s@,
                Err(e) => parse_cid(s@) == Err::<Seq<char>, CidFault>(e@),
            },
    {
        let v = chars_of(s);
        assert(v@.skip(0) =~= v@);
        if !occurs_at(&v, 0, "cid:") {
            return Err(CidError::InvalidFormat("must start with 'cid:'".to_owned()));
        }
        let b = splitn_bounds(&v, ':', 3);
        if b.len() != 3 {
            return Err(CidError::InvalidFormat("expected cid:algo:hash".to_owned()));
        }
        let (a0, a1) = b[1];
        let (h0, h1) = b[2];
        assert(pieces(v@, b@)[1] == v@.subrange(a0 as int, a1 as int));
        assert(pieces(v@, b@)[2] == v@.subrange(h0 as int, h1 as int));
        if !range_equals(&v, a0, a1, "blake3") {
            return Err(CidError::UnsupportedAlgorithm(s.substring_char(a0, a1).to_owned()));
        }
        let hash = s.substring_char(h0, h1);
        if hash.as_bytes().len() != 64 {
            return Err(CidError::InvalidEncoding("blake3 hash must be 64 hex chars".to_owned()));
        }
        assert(splitn(s@, ':', 3)[2] == hash@);
        let mut i = h0;
        while i < h1
            invariant
                h0 <= i <= h1 <= v.len(),
                v@ == s@,
                "cid:"@.is_prefix_of(s@),
                splitn(s@, ':', 3).len() == 3,
                splitn(s@, ':', 3)[1] == "blake3"@,
                splitn(s@, ':', 3)[2] == hash@,
                vstd::utf8::encode_utf8(hash@).len() == 64,
                hash@ == v@.subrange(h0 as int, h1 as int),
                forall|j: int| 0 <= j < i - h0 ==> is_hex_digit(#[trigger] hash@[j]),
            decreases h1 - i,
        {
            let c = v[i];
            assert(hash@[i - h0] == c);
            if !(('0' <= c && c <= '9') || ('a' <= c && c <= 'f') || ('A' <= c && c <= 'F')) {
                assert(!is_hex_digit(hash@[i - h0]));
                return Err(CidError::InvalidEncoding("invalid hex characters".to_owned()));
            }
            i += 1;
        }
        assert(forall|j: int| 0 <= j < hash@.len() ==> is_hex_digit(#[trigger] hash@[j]));
        Ok(Cid { raw: s.to_owned(), hash: hash.to_owned() })
    }

    /// The full CID string.
    pub fn as_str(&self) -> (s: &str)
        ensures
            s@ == self@,
            s@ == cid_string(self.spec_hash()),
            parse_cid(self@) == Ok::<Seq<char>, CidFault>(self.spec_hash()),
    {
        proof {
            use_type_invariant(self);
            lemma_cid_shape(self@, self.spec_hash());
        }
        self.raw.as_str()
    }

    /// The hash part (64 hex digits).
    pub fn hash(&self) -> (h: &str)
        ensures
            h@ == self.spec_hash(),
            h@.len() == 64,
            forall|i: int| 0 <= i < h@.len() ==> is_hex_digit(#[trigger] h@[i]),
    {
        proof {
            use_type_invariant(self);
            lemma_cid_shape(self@, self.spec_hash());
        }
        self.hash.as_str()
    }

    /// The hash as the 32 bytes its hex digits stand for.
    pub fn hash_bytes(&self) -> (r: Option<[u8; 32]>)
        ensures
            r matches Some(b) && b@ == hex_bytes(self.spec_hash()),
    {
        proof {
            use_type_invariant(self);
            lemma_cid_shape(self@, self.spec_hash());
        }
        let h = chars_of(self.hash.as_str());
        let mut out = [0u8; 32];
        for i in 0..32
            invariant
                h@ == self.spec_hash(),
                h@.len() == 64,
                forall|k: int| 0 <= k < h@.len() ==> is_hex_digit(#[trigger] h@[k]),
                forall|j: int| 0 <= j < i ==> out@[j] == hex_bytes(h@)[j],
        {
            let hi = hex_digit_value(h[2 * i]);
            let lo = hex_digit_value(h[2 * i + 1]);
            out[i] = 16 * hi + lo;
        }
        assert(out@ =~= hex_bytes(h@));
        Some(out)
    }

    /// Whether some bytes are the content this CID names.
    pub fn verify(&self, bytes: &[u8]) -> (ok: bool)
        ensures
            ok == verifies_content(self.spec_hash(), bytes@),
    {
        let computed = Cid::from_bytes(bytes);
        computed.hash == self.hash
    }

    /// Whether content given as the outcome of putting it in canonical JSON
    /// form is the content this CID names (false when that failed).
    pub fn verify_canonical_json(&self, canonical: Result<Vec<u8>, String>) -> (ok: bool)
        ensures
            ok == (canonical matches Ok(b) && verifies_content(self.spec_hash(), b@)),
    {
        match canonical {
            Ok(bytes) => self.verify(bytes.as_slice()),
            Err(_) => false,
        }
    }

    /// Whether a JSON value, in its canonical form, is the content this CID names.
    pub fn verify_json(&self, value: &serde_json::Value) -> (ok: bool)
        ensures
            ok == (canonical_json_bytes(*value) matches Some(b) && verifies_content(
                self.spec_hash(),
                b,
            )),
    {
        self.verify_canonical_json(canonize_json(value))
    }

    /// The CID string as an owned string (the `Display` form).
    pub fn to_string(&self) -> (s: String)
        ensures
            s@ == self@,
    {
        self.raw.clone()
    }
}

/// What a parsed CID is made of: the prefix, then 64 hex digits.
pub proof fn lemma_cid_shape(s: Seq<char>, hash: Seq<char>)
    requires
        parse_cid(s) == Ok::<Seq<char>, CidFault>(hash),
    ensures
        s == cid_string(hash),
        hash.len() == 64,
        forall|i: int| 0 <= i < hash.len() ==> is_hex_digit(#[trigger] hash[i]),
{
    let parts = splitn(s, ':', 3);
    assert(parts.len() == 3 && parts[1] == "blake3"@ && parts[2] == hash);
    assert("cid:"@.is_prefix_of(s));
    assert(vstd::utf8::encode_utf8(hash).len() == 64);
    assert(forall|i: int| 0 <= i < hash.len() ==> is_hex_digit(#[trigger] hash[i]));
    crate::text::lemma_splitn3_join(s, ':');
    assert(parts[0] =~= "cid"@) by {
        reveal_strlit("cid:");
        reveal_strlit("cid");
        crate::text::lemma_index_of(s, ':');
        assert(s[3] == ':') by {
            assert(s.subrange(0, 4)[3] == "cid:"@[3]);
        }
        assert forall|j: int| 0 <= j < 3 implies s[j] != ':' && s[j] == "cid"@[j] by {
            assert(s.subrange(0, 4)[j] == "cid:"@[j]);
        }
    }
    assert(s =~= cid_string(hash)) by {
        reveal_strlit("cid:blake3:");
        reveal_strlit("cid");
        reveal_strlit("blake3");
    }
    assert(vstd::utf8::is_ascii_chars(hash));
    vstd::utf8::is_ascii_chars_encode_utf8(hash);
}

impl PartialEq for Cid {
    fn eq(&self, other: &Cid) -> (r: bool) {
        self.raw == other.raw && self.hash == other.hash
    }
}

impl vstd::std_specs::cmp::PartialEqSpecImpl for Cid {
    open spec fn obeys_eq_spec() -> bool {
        true
    }

    open spec fn eq_spec(&self, other: &Cid) -> bool {
        self@ == other@ && self.spec_hash() == other.spec_hash()
    }
}

impl Eq for Cid {

}

impl Clone for Cid {
    fn clone(&self) -> (c: Cid)
        ensures
            c@ == self@,
            c.spec_hash() == self.spec_hash(),
    {
        proof {
            use_type_invariant(self);
        }
        Cid { raw: self.raw.clone(), hash: self.hash.clone() }
    }
}

impl std::str::FromStr for Cid {
    type Err = CidError;

    fn from_str(s: &str) -> (r: Result<Cid, CidError>)
        ensures
            match r {
                Ok(c) => parse_cid(s@) == Ok::<Seq<char>, CidFault>(c.spec_hash()) && c@ == s@,
                Err(e) => parse_cid(s@) == Err::<Seq<char>, CidFault>(e@),
            },
    {
        Cid::parse(s)
    }
}

impl AsRef<str> for Cid {
    fn as_ref(&self) -> (s: &str)
        ensures
            s@ == self@,
    {
        self.raw.as_str()
    }
}

} // verus!
