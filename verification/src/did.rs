//! Decentralized Identifiers.
//!
//! Three DID methods are known:
//! - `did:ubl:<type>:<id>` — UBL native identifiers (users, orgs, agents,
//!   apps, wallets, services)
//! - `did:key:z<key>` — self-certifying Ed25519 keys
//! - `did:web:<domain>` — domain-linked identifiers
use vstd::prelude::*;

use crate::encoding::{base58_encoding, base64url_decoding, base64url_encoding};
use crate::encoding::{b64url_decode, b64url_encode, bs58_encode, is_base64url_char};
use crate::text::{
    chars_of, find_char, index_of, lemma_index_of, lemma_index_of_concat, occurs_at, pieces,
    range_equals, splitn, splitn_bounds, substring,
};

verus! {

/// Why a DID was refused, with the message as characters.
pub enum DidFault {
    InvalidFormat(Seq<char>),
    UnsupportedMethod(Seq<char>),
    InvalidType(Seq<char>),
    InvalidKeyEncoding(Seq<char>),
}

/// DID parsing/validation errors.
#[derive(Debug)]
pub enum DidError {
    /// Not of the form `did:<method>:<rest>`.
    InvalidFormat(String),
    /// A method other than `ubl`, `key` and `web`.
    UnsupportedMethod(String),
    /// A UBL type other than the six known ones.
    InvalidType(String),
    /// A key that does not decode.
    InvalidKeyEncoding(String),
}

impl View for DidError {
    type V = DidFault;

    open spec fn view(&self) -> DidFault {
        match self {
            DidError::InvalidFormat(m) => DidFault::InvalidFormat(m@),
            DidError::UnsupportedMethod(m) => DidFault::UnsupportedMethod(m@),
            DidError::InvalidType(m) => DidFault::InvalidType(m@),
            DidError::InvalidKeyEncoding(m) => DidFault::InvalidKeyEncoding(m@),
        }
    }
}

/// The human-readable text of a DID error.
pub open spec fn did_error_text(e: DidFault) -> Seq<char> {
    match e {
        DidFault::InvalidFormat(m) => "invalid DID format: "@ + m,
        DidFault::UnsupportedMethod(m) => "unsupported DID method: "@ + m,
        DidFault::InvalidType(m) => "invalid UBL type: "@ + m,
        DidFault::InvalidKeyEncoding(m) => "invalid key encoding: "@ + m,
    }
}

impl DidError {
    /// The error's message.
    pub fn to_string(&self) -> (s: String)
        ensures
            s@ == did_error_text(self@),
    {
        let (prefix, m) = match self {
            DidError::InvalidFormat(m) => ("invalid DID format: ", m),
            DidError::UnsupportedMethod(m) => ("unsupported DID method: ", m),
            DidError::InvalidType(m) => ("invalid UBL type: ", m),
            DidError::InvalidKeyEncoding(m) => ("invalid key encoding: ", m),
        };
        let mut s = prefix.to_owned();
        s.append(m.as_str());
        s
    }
}

/// DID method (the component after `did:`).
#[derive(Debug, Clone, Copy, PartialEq, Eq, Structural, Hash)]
pub enum DidMethod {
    /// UBL native: `did:ubl:type:id`
    Ubl,
    /// Self-certifying key: `did:key:z...`
    Key,
    /// Domain-linked: `did:web:example.com`
    Web,
}

impl Default for DidMethod {
    fn default() -> (m: DidMethod)
        ensures
            m == DidMethod::Ubl,
    {
        DidMethod::Ubl
    }
}

/// The name of a DID method as it stands in a DID.
pub open spec fn method_name(m: DidMethod) -> Seq<char> {
    match m {
        DidMethod::Ubl => "ubl"@,
        DidMethod::Key => "key"@,
        DidMethod::Web => "web"@,
    }
}

/// The DID method with the given name, if any.
pub open spec fn method_named(s: Seq<char>) -> Option<DidMethod> {
    if s == "ubl"@ {
        Some(DidMethod::Ubl)
    } else if s == "key"@ {
        Some(DidMethod::Key)
    } else if s == "web"@ {
        Some(DidMethod::Web)
    } else {
        None
    }
}

impl DidMethod {
    /// The method's name (`ubl`, `key` or `web`).
    pub fn to_string(&self) -> (s: String)
        ensures
            s@ == method_name(*self),
    {
        match self {
            DidMethod::Ubl => "ubl".to_owned(),
            DidMethod::Key => "key".to_owned(),
            DidMethod::Web => "web".to_owned(),
        }
    }
}

/// UBL entity type (for `did:ubl:type:id`).
#[derive(Debug, Clone, Copy, PartialEq, Eq, Structural, Hash)]
pub enum DidType {
    /// Human user
    User,
    /// Organization/company
    Org,
    /// LLM/AI agent
    Agent,
    /// Application
    App,
    /// Ephemeral wallet/session
    Wallet,
    /// System service
    Service,
}

/// The name of a UBL type as it stands in a DID.
pub open spec fn ubl_type_name(t: DidType) -> Seq<char> {
    match t {
        DidType::User => "user"@,
        DidType::Org => "org"@,
        DidType::Agent => "agent"@,
        DidType::App => "app"@,
        DidType::Wallet => "wallet"@,
        DidType::Service => "service"@,
    }
}

/// The UBL type with the given name, if any.
pub open spec fn ubl_type_named(s: Seq<char>) -> Option<DidType> {
    if s == "user"@ {
        Some(DidType::User)
    } else if s == "org"@ {
        Some(DidType::Org)
    } else if s == "agent"@ {
        Some(DidType::Agent)
    } else if s == "app"@ {
        Some(DidType::App)
    } else if s == "wallet"@ {
        Some(DidType::Wallet)
    } else if s == "service"@ {
        Some(DidType::Service)
    } else {
        None
    }
}

impl DidType {
    /// The type's name (`user`, `org`, `agent`, `app`, `wallet` or `service`).
    pub fn to_string(&self) -> (s: String)
        ensures
            s@ == ubl_type_name(*self),
    {
        match self {
            DidType::User => "user".to_owned(),
            DidType::Org => "org".to_owned(),
            DidType::Agent => "agent".to_owned(),
            DidType::App => "app".to_owned(),
            DidType::Wallet => "wallet".to_owned(),
            DidType::Service => "service".to_owned(),
        }
    }

    /// Reads a UBL type from its name.
    pub fn from_str(s: &str) -> (r: Result<DidType, DidError>)
        ensures
            match r {
                Ok(t) => ubl_type_named(s@) == Some(t),
                Err(e) => ubl_type_named(s@) is None && e@ == DidFault::InvalidType(s@),
            },
    {
        let v = chars_of(s);
        let n = v.len();
        assert(v@.subrange(0, n as int) =~= s@);
        if range_equals(&v, 0, n, "user") {
            Ok(DidType::User)
        } else if range_equals(&v, 0, n, "org") {
            Ok(DidType::Org)
        } else if range_equals(&v, 0, n, "agent") {
            Ok(DidType::Agent)
        } else if range_equals(&v, 0, n, "app") {
            Ok(DidType::App)
        } else if range_equals(&v, 0, n, "wallet") {
            Ok(DidType::Wallet)
        } else if range_equals(&v, 0, n, "service") {
            Ok(DidType::Service)
        } else {
            Err(DidError::InvalidType(s.to_owned()))
        }
    }
}

/// What parsing a DID string gives: its method, or why it is refused.
pub open spec fn parse_did(s: Seq<char>) -> Result<DidMethod, DidFault> {
    if !"did:"@.is_prefix_of(s) {
        Err(DidFault::InvalidFormat("must start with 'did:'"@))
    } else {
        let parts = splitn(s, ':', 3);
        if parts.len() < 3 {
            Err(DidFault::InvalidFormat("missing method or id"@))
        } else {
            match method_named(parts[1]) {
                Some(m) => Ok(m),
                None => Err(DidFault::UnsupportedMethod(parts[1])),
            }
        }
    }
}

/// The DID `did:ubl:<type>:<id>`.
pub open spec fn ubl_did(t: DidType, id: Seq<char>) -> Seq<char> {
    "did:ubl:"@ + ubl_type_name(t) + ":"@ + id
}

/// The DID `did:web:<domain>`.
pub open spec fn web_did(domain: Seq<char>) -> Seq<char> {
    "did:web:"@ + domain
}

/// The DID `did:key:z<base64url of the key>` (UBL key format).
pub open spec fn key_did(pk: Seq<u8>) -> Seq<char> {
    "did:key:z"@ + base64url_encoding(pk)
}

/// The DID `did:key:z<base58 of 0xed 0x01 and the key>` (W3C multicodec format).
pub open spec fn key_did_w3c(pk: Seq<u8>) -> Seq<char> {
    "did:key:z"@ + base58_encoding(seq![0xedu8, 0x01u8] + pk)
}

/// The UBL type named in a DID with the given method.
pub open spec fn ubl_type_of(s: Seq<char>, m: DidMethod) -> Option<DidType> {
    if m != DidMethod::Ubl {
        None
    } else {
        let parts = splitn(s, ':', 4);
        if parts.len() >= 3 {
            ubl_type_named(parts[2])
        } else {
            None
        }
    }
}

/// The UBL id named in a DID with the given method.
pub open spec fn ubl_id_of(s: Seq<char>, m: DidMethod) -> Option<Seq<char>> {
    if m != DidMethod::Ubl {
        None
    } else {
        let parts = splitn(s, ':', 4);
        if parts.len() >= 4 {
            Some(parts[3])
        } else {
            None
        }
    }
}

/// The key that a DID with the given method carries (UBL key format).
pub open spec fn key_bytes_of(s: Seq<char>, m: DidMethod) -> Option<Seq<u8>> {
    if m != DidMethod::Key || !"did:key:z"@.is_prefix_of(s) {
        None
    } else {
        match base64url_decoding(vstd::utf8::encode_utf8(s.skip("did:key:z"@.len() as int))) {
            Some(b) => if b.len() == 32 {
                Some(b)
            } else {
                None
            },
            None => None,
        }
    }
}

/// Whether a DID with the given method can sign (has a key behind it).
pub open spec fn method_can_sign(m: DidMethod) -> bool {
    m == DidMethod::Key || m == DidMethod::Ubl
}

/// No UBL type name and no method name holds a colon.
pub proof fn lemma_names_lack_colon(t: DidType, m: DidMethod)
    ensures
        forall|i: int| 0 <= i < ubl_type_name(t).len() ==> ubl_type_name(t)[i] != ':',
        forall|i: int| 0 <= i < method_name(m).len() ==> method_name(m)[i] != ':',
{
    reveal_strlit("user");
    reveal_strlit("org");
    reveal_strlit("agent");
    reveal_strlit("app");
    reveal_strlit("wallet");
    reveal_strlit("service");
    reveal_strlit("ubl");
    reveal_strlit("key");
    reveal_strlit("web");
}

/// Splitting `<head>:<tail>` at its first colon, where `head` lacks colons.
proof fn lemma_splitn_head(head: Seq<char>, tail: Seq<char>, n: nat)
    requires
        n >= 2,
        forall|i: int| 0 <= i < head.len() ==> head[i] != ':',
    ensures
        splitn(head + ":"@ + tail, ':', n) == seq![head] + splitn(tail, ':', (n - 1) as nat),
{
    reveal_strlit(":");
    let s = head + ":"@ + tail;
    assert(s =~= head + (":"@ + tail));
    lemma_index_of(":"@ + tail, ':');
    lemma_index_of_concat(head, ":"@ + tail, ':');
    assert(index_of(":"@ + tail, ':') == 0);
    assert(s.take(head.len() as int) =~= head);
    assert(s.skip(head.len() + 1int) =~= tail);
}

/// A string `did:<method>:<tail>` parses, with that method.
pub proof fn lemma_did_shape(m: DidMethod, tail: Seq<char>)
    ensures
        parse_did("did"@ + ":"@ + method_name(m) + ":"@ + tail) == Ok::<DidMethod, DidFault>(m),
        splitn("did"@ + ":"@ + method_name(m) + ":"@ + tail, ':', 4) == seq!["did"@, method_name(m)]
            + splitn(tail, ':', 2),
{
    reveal_strlit("did");
    reveal_strlit("did:");
    reveal_strlit(":");
    reveal_with_fuel(splitn, 2);
    lemma_names_lack_colon(DidType::User, m);
    let s = "did"@ + ":"@ + method_name(m) + ":"@ + tail;
    let rest = method_name(m) + ":"@ + tail;
    assert(s =~= "did"@ + ":"@ + rest);
    lemma_splitn_head("did"@, rest, 3);
    lemma_splitn_head("did"@, rest, 4);
    lemma_splitn_head(method_name(m), tail, 2);
    lemma_splitn_head(method_name(m), tail, 3);
    assert("did:"@ =~= s.subrange(0, 4));
    assert(method_named(method_name(m)) == Some(m)) by {
        reveal_strlit("ubl");
        reveal_strlit("key");
        reveal_strlit("web");
    }
}

/// A UBL DID parses as a UBL DID, and its type and id read back as the ones
/// it was made of.
pub proof fn law_ubl_did_reads_back(t: DidType, id: Seq<char>)
    ensures
        parse_did(ubl_did(t, id)) == Ok::<DidMethod, DidFault>(DidMethod::Ubl),
        ubl_type_of(ubl_did(t, id), DidMethod::Ubl) == Some(t),
        ubl_id_of(ubl_did(t, id), DidMethod::Ubl) == Some(id),
{
    reveal_strlit("did:ubl:");
    reveal_strlit("did");
    reveal_strlit(":");
    reveal_strlit("ubl");
    reveal_with_fuel(splitn, 2);
    lemma_names_lack_colon(t, DidMethod::Ubl);
    let tail = ubl_type_name(t) + ":"@ + id;
    assert(ubl_did(t, id) =~= "did"@ + ":"@ + method_name(DidMethod::Ubl) + ":"@ + tail);
    lemma_did_shape(DidMethod::Ubl, tail);
    lemma_splitn_head(ubl_type_name(t), id, 2);
    assert(splitn(id, ':', 1) == seq![id]);
    assert(ubl_type_named(ubl_type_name(t)) == Some(t)) by {
        reveal_strlit("user");
        reveal_strlit("org");
        reveal_strlit("agent");
        reveal_strlit("app");
        reveal_strlit("wallet");
        reveal_strlit("service");
    }
}

/// `did:key` DIDs (of either key format) and `did:ubl` DIDs have a key
/// behind them and can sign; `did:web` DIDs cannot: each parses, and its
/// method can sign exactly when it is not a web DID.
pub proof fn law_which_dids_can_sign(pk: Seq<u8>, t: DidType, id: Seq<char>, domain: Seq<char>)
    ensures
        parse_did(key_did(pk)) matches Ok(m) && method_can_sign(m),
        parse_did(key_did_w3c(pk)) matches Ok(m) && method_can_sign(m),
        parse_did(ubl_did(t, id)) matches Ok(m) && method_can_sign(m),
        parse_did(web_did(domain)) matches Ok(m) && !method_can_sign(m),
{
    reveal_strlit("did:key:z");
    reveal_strlit("did:web:");
    reveal_strlit("did");
    reveal_strlit(":");
    reveal_strlit("z");
    reveal_strlit("key");
    reveal_strlit("web");
    let kt = "z"@ + base64url_encoding(pk);
    assert(key_did(pk) =~= "did"@ + ":"@ + method_name(DidMethod::Key) + ":"@ + kt);
    lemma_did_shape(DidMethod::Key, kt);
    let wt = "z"@ + base58_encoding(seq![0xedu8, 0x01u8] + pk);
    assert(key_did_w3c(pk) =~= "did"@ + ":"@ + method_name(DidMethod::Key) + ":"@ + wt);
    lemma_did_shape(DidMethod::Key, wt);
    assert(web_did(domain) =~= "did"@ + ":"@ + method_name(DidMethod::Web) + ":"@ + domain);
    lemma_did_shape(DidMethod::Web, domain);
    law_ubl_did_reads_back(t, id);
}

/// A Decentralized Identifier: the full DID string and its parsed method.
#[derive(Debug, Hash)]
pub struct Did {
    raw: String,
    method: DidMethod,
}

impl View for Did {
    type V = Seq<char>;

    closed spec fn view(&self) -> Seq<char> {
        self.raw@
    }
}

impl Did {
    /// Every DID parses, with the method it holds.
    #[verifier::type_invariant]
    closed spec fn wf(self) -> bool {
        parse_did(self.raw@) == Ok::<DidMethod, DidFault>(self.method)
    }

    /// The DID's method.
    pub closed spec fn spec_method(self) -> DidMethod {
        self.method
    }

    /// Parses a DID string.
    pub fn parse(s: &str) -> (r: Result<Did, DidError>)
        ensures
            match r {
                Ok(d) => parse_did(s@) == Ok::<DidMethod, DidFault>(d.spec_method()) && d@ == s@,
                Err(e) => parse_did(s@) == Err::<DidMethod, DidFault>(e@),
            },
    {
        let v = chars_of(s);
        if !occurs_at(&v, 0, "did:") {
            return Err(DidError::InvalidFormat("must start with 'did:'".to_owned()));
        }
        proof {
            reveal_strlit("did:");
            reveal_with_fuel(splitn, 3);
            lemma_index_of(s@, ':');
        }
        assert(s@[3] == ':') by {
            assert(s@.subrange(0, 4)[3] == "did:"@[3]);
        }
        let first = find_char(&v, 0, ':');
        assert(v@.skip(0) =~= v@);
        let i = match first {
            Some(i) => i,
            None => {
                assert(false);
                return Err(DidError::InvalidFormat("missing method or id".to_owned()));
            },
        };
        assert(i == 3) by {
            assert(v@[3] == ':');
            assert forall|j: int| 0 <= j < 3 implies v@[j] != ':' by {
                assert(v@[j] == "did:"@[j]);
            }
        }
        assert(s@.take(3) =~= "did"@) by {
            reveal_strlit("did");
        }
        let second = find_char(&v, i + 1, ':');
        match second {
            None => Err(DidError::InvalidFormat("missing method or id".to_owned())),
            Some(j) => {
                assert(v@.subrange(i + 1, j as int) =~= s@.skip(i + 1).take(j - (i + 1)));
                let method = if range_equals(&v, i + 1, j, "ubl") {
                    DidMethod::Ubl
                } else if range_equals(&v, i + 1, j, "key") {
                    DidMethod::Key
                } else if range_equals(&v, i + 1, j, "web") {
                    DidMethod::Web
                } else {
                    return Err(DidError::UnsupportedMethod(substring(s, i + 1, j)));
                };
                Ok(Did { raw: s.to_owned(), method })
            },
        }
    }

    /// Creates `did:ubl:<type>:<id>`.
    pub fn ubl(typ: DidType, id: &str) -> (d: Did)
        ensures
            d@ == ubl_did(typ, id@),
            d.spec_method() == DidMethod::Ubl,
            ubl_type_of(d@, d.spec_method()) == Some(typ),
            ubl_id_of(d@, d.spec_method()) == Some(id@),
    {
        let mut raw = "did:ubl:".to_owned();
        let name = typ.to_string();
        raw.append(name.as_str());
        raw.append(":");
        raw.append(id);
        proof {
            law_ubl_did_reads_back(typ, id@);
        }
        assert(raw@ =~= ubl_did(typ, id@));
        Did { raw, method: DidMethod::Ubl }
    }

    /// Creates `did:key:z<base64url(pk)>` from an Ed25519 public key (UBL key format).
    pub fn key_from_ed25519(pk32: &[u8; 32]) -> (d: Did)
        ensures
            d@ == key_did(pk32@),
            d.spec_method() == DidMethod::Key,
            parse_did(d@) == Ok::<DidMethod, DidFault>(DidMethod::Key),
            key_bytes_of(d@, d.spec_method()) == Some(pk32@),
            forall|i: int|
                "did:key:z"@.len() <= i < d@.len() ==> is_base64url_char(#[trigger] d@[i]),
    {
        let encoded = b64url_encode(pk32.as_slice());
        let mut raw = "did:key:z".to_owned();
        raw.append(encoded.as_str());
        proof {
            reveal_strlit("did:key:z");
            reveal_strlit("z");
            let tail = "z"@ + encoded@;
            assert(raw@ =~= "did"@ + ":"@ + method_name(DidMethod::Key) + ":"@ + tail) by {
                reveal_strlit("did");
                reveal_strlit(":");
                reveal_strlit("key");
            }
            lemma_did_shape(DidMethod::Key, tail);
            assert("did:key:z"@.is_prefix_of(raw@));
            assert(raw@.skip("did:key:z"@.len() as int) =~= encoded@);
        }
        assert(raw@ =~= key_did(pk32@));
        Did { raw, method: DidMethod::Key }
    }

    /// Creates `did:key:z<base58(0xed 0x01 ++ pk)>` from an Ed25519 public key
    /// (W3C multicodec format).
    pub fn key_from_ed25519_w3c(pk32: &[u8; 32]) -> (d: Did)
        ensures
            d@ == key_did_w3c(pk32@),
            d.spec_method() == DidMethod::Key,
            "did:key:z"@.is_prefix_of(d@),
            forall|b: Seq<u8>|
                #[trigger] base58_encoding(b) == d@.skip("did:key:z"@.len() as int) ==> b == seq![
                    0xedu8,
                    0x01u8,
                ] + pk32@,
    {
        let mut v: Vec<u8> = Vec::new();
        v.push(0xed);
        v.push(0x01);
        v.extend_from_slice(pk32.as_slice());
        let encoded = bs58_encode(v.as_slice());
        let mut raw = "did:key:z".to_owned();
        raw.append(encoded.as_str());
        proof {
            reveal_strlit("did:key:z");
            reveal_strlit("z");
            let tail = "z"@ + encoded@;
            assert(raw@ =~= "did"@ + ":"@ + method_name(DidMethod::Key) + ":"@ + tail) by {
                reveal_strlit("did");
                reveal_strlit(":");
                reveal_strlit("key");
            }
            lemma_did_shape(DidMethod::Key, tail);
            assert("did:key:z"@.is_prefix_of(raw@));
            assert(raw@.skip("did:key:z"@.len() as int) =~= encoded@);
        }
        assert(v@ =~= seq![0xedu8, 0x01u8] + pk32@);
        assert(raw@ =~= key_did_w3c(pk32@));
        Did { raw, method: DidMethod::Key }
    }

    /// Creates `did:web:<domain>`.
    pub fn web(domain: &str) -> (d: Did)
        ensures
            d@ == web_did(domain@),
            d.spec_method() == DidMethod::Web,
    {
        let mut raw = "did:web:".to_owned();
        raw.append(domain);
        proof {
            reveal_strlit("did:web:");
            assert(raw@ =~= "did"@ + ":"@ + method_name(DidMethod::Web) + ":"@ + domain@) by {
                reveal_strlit("did");
                reveal_strlit(":");
                reveal_strlit("web");
            }
            lemma_did_shape(DidMethod::Web, domain@);
        }
        Did { raw, method: DidMethod::Web }
    }

    /// The full DID string. It parses, with the DID's method.
    pub fn as_str(&self) -> (s: &str)
        ensures
            s@ == self@,
            parse_did(self@) == Ok::<DidMethod, DidFault>(self.spec_method()),
    {
        proof {
            use_type_invariant(self);
        }
        self.raw.as_str()
    }

    /// The DID method.
    pub fn method(&self) -> (m: &DidMethod)
        ensures
            *m == self.spec_method(),
            parse_did(self@) == Ok::<DidMethod, DidFault>(*m),
    {
        proof {
            use_type_invariant(self);
        }
        &self.method
    }

    /// For `did:ubl:type:id`, the type.
    pub fn ubl_type(&self) -> (r: Option<DidType>)
        ensures
            r == ubl_type_of(self@, self.spec_method()),
    {
        if self.method != DidMethod::Ubl {
            return None;
        }
        let s = self.raw.as_str();
        let v = chars_of(s);
        let b = splitn_bounds(&v, ':', 4);
        if b.len() >= 3 {
            let (from, to) = b[2];
            assert(pieces(v@, b@)[2] == v@.subrange(from as int, to as int));
            let piece = s.substring_char(from, to);
            match DidType::from_str(piece) {
                Ok(t) => Some(t),
                Err(_) => None,
            }
        } else {
            None
        }
    }

    /// For `did:ubl:type:id`, the id.
    pub fn ubl_id(&self) -> (r: Option<&str>)
        ensures
            match r {
                Some(id) => ubl_id_of(self@, self.spec_method()) == Some(id@),
                None => ubl_id_of(self@, self.spec_method()) is None,
            },
    {
        if self.method != DidMethod::Ubl {
            return None;
        }
        let s = self.raw.as_str();
        let v = chars_of(s);
        let b = splitn_bounds(&v, ':', 4);
        if b.len() >= 4 {
            let (from, to) = b[3];
            assert(pieces(v@, b@)[3] == v@.subrange(from as int, to as int));
            Some(s.substring_char(from, to))
        } else {
            None
        }
    }

    /// For `did:key:z...`, the Ed25519 public key bytes (UBL key format).
    pub fn key_bytes(&self) -> (r: Option<[u8; 32]>)
        ensures
            match r {
                Some(k) => key_bytes_of(self@, self.spec_method()) == Some(k@),
                None => key_bytes_of(self@, self.spec_method()) is None,
            },
    {
        if self.method != DidMethod::Key {
            return None;
        }
        let s = self.raw.as_str();
        let v = chars_of(s);
        if !occurs_at(&v, 0, "did:key:z") {
            assert(v@.skip(0) =~= v@);
            return None;
        }
        assert(v@.skip(0) =~= v@);
        let start = "did:key:z".unicode_len();
        let key_part = s.substring_char(start, v.len());
        assert(key_part@ =~= s@.skip("did:key:z"@.len() as int));
        let bytes = match b64url_decode(key_part.as_bytes()) {
            Some(b) => b,
            None => {
                return None;
            },
        };
        if bytes.len() != 32 {
            return None;
        }
        let mut key = [0u8; 32];
        for i in 0..32
            invariant
                bytes@.len() == 32,
                forall|j: int| 0 <= j < i ==> key@[j] == bytes@[j],
        {
            key[i] = bytes[i];
        }
        assert(key@ =~= bytes@);
        Some(key)
    }

    /// Whether this DID can sign things (has an associated private key capability).
    pub fn can_sign(&self) -> (r: bool)
        ensures
            r == method_can_sign(self.spec_method()),
    {
        self.method == DidMethod::Key || self.method == DidMethod::Ubl
    }

    /// The DID string as an owned string (the `Display` form).
    pub fn to_string(&self) -> (s: String)
        ensures
            s@ == self@,
    {
        self.raw.clone()
    }
}

impl PartialEq for Did {
    fn eq(&self, other: &Did) -> (r: bool) {
        self.raw == other.raw && self.method == other.method
    }
}

impl vstd::std_specs::cmp::PartialEqSpecImpl for Did {
    open spec fn obeys_eq_spec() -> bool {
        true
    }

    open spec fn eq_spec(&self, other: &Did) -> bool {
        self@ == other@ && self.spec_method() == other.spec_method()
    }
}

impl Eq for Did {

}

impl std::str::FromStr for Did {
    type Err = DidError;

    fn from_str(s: &str) -> (r: Result<Did, DidError>)
        ensures
            match r {
                Ok(d) => parse_did(s@) == Ok::<DidMethod, DidFault>(d.spec_method()) && d@ == s@,
                Err(e) => parse_did(s@) == Err::<DidMethod, DidFault>(e@),
            },
    {
        Did::parse(s)
    }
}

impl std::str::FromStr for DidType {
    type Err = DidError;

    fn from_str(s: &str) -> (r: Result<DidType, DidError>)
        ensures
            match r {
                Ok(t) => ubl_type_named(s@) == Some(t),
                Err(e) => ubl_type_named(s@) is None && e@ == DidFault::InvalidType(s@),
            },
    {
        DidType::from_str(s)
    }
}

impl AsRef<str> for Did {
    fn as_ref(&self) -> (s: &str)
        ensures
            s@ == self@,
    {
        self.raw.as_str()
    }
}

impl Clone for Did {
    fn clone(&self) -> (d: Did)
        ensures
            d@ == self@,
            d.spec_method() == self.spec_method(),
    {
        proof {
            use_type_invariant(self);
        }
        Did { raw: self.raw.clone(), method: self.method }
    }
}

} // verus!
