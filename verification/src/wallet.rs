//! Ephemeral wallets for session-based signing.
//!
//! A wallet is a short-lived Ed25519 keypair that can sign proof-of-possession
//! headers, is named by the `did:key` DID of its public key, and may expire
//! after a time-to-live.
use vstd::prelude::*;

use crate::crypto::{
    ed25519_key_decodes, ed25519_public, ed25519_public_key,
    ed25519_sign, ed25519_signature, clock_now, clock_reading, random_secret_key,
};
use crate::did::{key_bytes_of, key_did, parse_did, Did, DidFault, DidMethod};
use crate::encoding::{
    b64url_decode, b64url_encode, base64url_decoding, base64url_encoding, canonize_json,
    json_object_value,
};
use crate::pop::{canonical_payload, token_binding, token_binding_of, Pop, PopPayloadV1};

verus! {

/// Why a wallet operation failed, with the message as characters.
pub enum WalletFault {
    InvalidKey(Seq<char>),
    Expired,
    SigningError(Seq<char>),
}

/// Wallet errors.
#[derive(Debug)]
pub enum WalletError {
    /// A private key that does not decode to 32 bytes.
    InvalidKey(String),
    /// The wallet's time-to-live has passed.
    Expired,
    /// The payload could not be put in canonical form (only where a payload
    /// is signed from bytes given by the caller).
    SigningError(String),
}

impl View for WalletError {
    type V = WalletFault;

    open spec fn view(&self) -> WalletFault {
        match self {
            WalletError::InvalidKey(m) => WalletFault::InvalidKey(m@),
            WalletError::Expired => WalletFault::Expired,
            WalletError::SigningError(m) => WalletFault::SigningError(m@),
        }
    }
}

/// The human-readable text of a wallet error.
pub open spec fn wallet_error_text(e: WalletFault) -> Seq<char> {
    match e {
        WalletFault::InvalidKey(m) => "invalid key encoding: "@ + m,
        WalletFault::Expired => "expired wallet"@,
        WalletFault::SigningError(m) => "signing error: "@ + m,
    }
}

impl WalletError {
    /// The error's message.
    pub fn to_string(&self) -> (s: String)
        ensures
            s@ == wallet_error_text(self@),
    {
        match self {
            WalletError::InvalidKey(m) => {
                let mut s = "invalid key encoding: ".to_owned();
                s.append(m.as_str());
                s
            },
            WalletError::Expired => "expired wallet".to_owned(),
            WalletError::SigningError(m) => {
                let mut s = "signing error: ".to_owned();
                s.append(m.as_str());
                s
            },
        }
    }
}

/// An Ed25519 public key as a JSON Web Key.
#[derive(Debug)]
pub struct JwkPub {
    pub kty: String,
    pub crv: String,
    pub x: String,
}

/// What holds of the keys of every wallet: its DID is the `did:key` DID of
/// its public key, that DID parses as a key DID and gives the key back, and
/// the key decodes as a curve point.
pub open spec fn wallet_keys_ok(secret: Seq<u8>, did: Seq<char>) -> bool {
    &&& did == key_did(ed25519_public_key(secret))
    &&& parse_did(did) == Ok::<DidMethod, DidFault>(DidMethod::Key)
    &&& key_bytes_of(did, DidMethod::Key) == Some(ed25519_public_key(secret))
    &&& ed25519_key_decodes(ed25519_public_key(secret))
    &&& forall|i: int| 0 <= i < did.len() ==> did[i] != '.'
}

/// The secret key that a base64url private key stands for, or why it is
/// refused.
pub open spec fn secret_of_priv_b64(s: Seq<char>) -> Result<Seq<u8>, WalletFault> {
    match base64url_decoding(vstd::utf8::encode_utf8(s)) {
        None => Err(WalletFault::InvalidKey("bad base64"@)),
        Some(b) => if b.len() != 32 {
            Err(WalletFault::InvalidKey("expected 32 bytes"@))
        } else {
            Ok(b)
        },
    }
}

/// Whether a wallet created at `created_at` with time-to-live `ttl` has
/// expired at time `now`.
pub open spec fn expired_at(created_at: i64, ttl: Option<i64>, now: i64) -> bool {
    match ttl {
        Some(t) => now > created_at + t,
        None => false,
    }
}

/// Expiry: a wallet without time-to-live never expires; one with a
/// time-to-live has expired at a time exactly when that time lies past its
/// creation time plus the time-to-live; and once expired it stays expired
/// at every later time.
pub proof fn law_expiry(created_at: i64, ttl: Option<i64>, now: i64, later: i64)
    ensures
        ttl is None ==> !expired_at(created_at, ttl, now),
        ttl matches Some(t) ==> (expired_at(created_at, ttl, now) <==> now - t > created_at),
        expired_at(created_at, ttl, now) && now <= later ==> expired_at(created_at, ttl, later),
{
}

/// What a wallet with secret key `secret` and DID `did` signs for a request
/// at time `ts`: a version-1 payload of the request and the token binding,
/// some payload bytes, their Ed25519 signature and the wallet's DID.
pub open spec fn signed_pop(
    pop: Pop,
    secret: Seq<u8>,
    did: Seq<char>,
    method: Seq<char>,
    path: Seq<char>,
    token: Option<Seq<char>>,
    ts: i64,
) -> bool {
    &&& pop.payload.v == 1
    &&& pop.payload.m@ == method
    &&& pop.payload.p@ == path
    &&& pop.payload.ts == ts
    &&& match (pop.payload.ath, token) {
        (Some(a), Some(t)) => a@ == token_binding(t),
        (None, None) => true,
        _ => false,
    }
    &&& pop.payload_bytes@ == canonical_payload(pop.payload)
    &&& pop.signature@ == ed25519_signature(secret, pop.payload_bytes@)
    &&& pop.wallet_did@ == did
}

/// An ephemeral wallet (Ed25519 keypair).
pub struct Wallet {
    secret: [u8; 32],
    did: Did,
    created_at: i64,
    ttl_secs: Option<i64>,
}

impl Wallet {
    /// The DID of every wallet is that of its public key.
    #[verifier::type_invariant]
    closed spec fn wf(self) -> bool {
        &&& wallet_keys_ok(self.secret@, self.did@)
        &&& self.did.spec_method() == DidMethod::Key
    }

    /// The secret key.
    pub closed spec fn spec_secret(self) -> Seq<u8> {
        self.secret@
    }

    /// The DID string.
    pub closed spec fn spec_did(self) -> Seq<char> {
        self.did@
    }

    /// The creation time (Unix seconds).
    pub closed spec fn spec_created_at(self) -> i64 {
        self.created_at
    }

    /// The time-to-live in seconds, if any.
    pub closed spec fn spec_ttl(self) -> Option<i64> {
        self.ttl_secs
    }

    /// The wallet of a secret key, created at a given time, with an optional
    /// time-to-live.
    pub fn from_secret_key(secret: [u8; 32], created_at: i64, ttl_secs: Option<i64>) -> (w: Wallet)
        ensures
            w.spec_secret() == secret@,
            w.spec_did() == key_did(ed25519_public_key(secret@)),
            wallet_keys_ok(secret@, w.spec_did()),
            w.spec_created_at() == created_at,
            w.spec_ttl() == ttl_secs,
    {
        let public = ed25519_public(&secret);
        let did = Did::key_from_ed25519(&public);
        proof {
            reveal_strlit("did:key:z");
            assert forall|i: int| 0 <= i < did@.len() implies did@[i] != '.' by {
                if i >= 9 {
                    assert(crate::encoding::is_base64url_char(did@[i]));
                }
            }
        }
        Wallet { secret, did, created_at, ttl_secs }
    }

    /// Generates a new random wallet, created now, without time-to-live.
    pub fn generate() -> (w: Wallet)
        ensures
            w.spec_ttl() is None,
            clock_reading(w.spec_created_at()),
            w.spec_did() == key_did(ed25519_public_key(w.spec_secret())),
    {
        let secret = random_secret_key();
        let now = clock_now();
        Wallet::from_secret_key(secret, now, None)
    }

    /// Generates a new random wallet with a time-to-live.
    pub fn generate_with_ttl(ttl_secs: i64) -> (w: Wallet)
        ensures
            w.spec_ttl() == Some(ttl_secs),
            clock_reading(w.spec_created_at()),
            w.spec_did() == key_did(ed25519_public_key(w.spec_secret())),
    {
        let secret = random_secret_key();
        let now = clock_now();
        Wallet::from_secret_key(secret, now, Some(ttl_secs))
    }

    /// Restores a wallet from its base64url-encoded private key; it is
    /// created now, without time-to-live.
    pub fn from_priv_b64(priv_b64: &str) -> (r: Result<Wallet, WalletError>)
        ensures
            match secret_of_priv_b64(priv_b64@) {
                Err(f) => r matches Err(e) && e@ == f,
                Ok(b) => r matches Ok(w) && w.spec_secret() == b && w.spec_ttl() is None
                    && clock_reading(w.spec_created_at())
                    && w.spec_did() == key_did(ed25519_public_key(b)) && wallet_keys_ok(
                    b,
                    w.spec_did(),
                ),
            },
    {
        let bytes = match b64url_decode(priv_b64.as_bytes()) {
            Some(b) => b,
            None => {
                return Err(WalletError::InvalidKey("bad base64".to_owned()));
            },
        };
        if bytes.len() != 32 {
            return Err(WalletError::InvalidKey("expected 32 bytes".to_owned()));
        }
        let mut secret = [0u8; 32];
        for i in 0..32
            invariant
                bytes@.len() == 32,
                forall|j: int| 0 <= j < i ==> secret@[j] == bytes@[j],
        {
            secret[i] = bytes[i];
        }
        assert(secret@ =~= bytes@);
        let now = clock_now();
        Ok(Wallet::from_secret_key(secret, now, None))
    }

    /// The wallet's DID: `did:key:z<base64url of the public key>`.
    pub fn did(&self) -> (d: &Did)
        ensures
            d@ == self.spec_did(),
            d.spec_method() == DidMethod::Key,
            wallet_keys_ok(self.spec_secret(), d@),
    {
        proof {
            use_type_invariant(self);
        }
        &self.did
    }

    /// The creation time (Unix seconds).
    pub fn created_at(&self) -> (t: i64)
        ensures
            t == self.spec_created_at(),
    {
        self.created_at
    }

    /// The time-to-live in seconds, if any.
    pub fn ttl_secs(&self) -> (t: Option<i64>)
        ensures
            t == self.spec_ttl(),
    {
        self.ttl_secs
    }

    /// The public key as an Ed25519 JWK (`kty` OKP, `crv` Ed25519, `x` the
    /// base64url public key).
    pub fn jwk_pub(&self) -> (j: JwkPub)
        ensures
            j.kty@ == "OKP"@,
            j.crv@ == "Ed25519"@,
            j.x@ == base64url_encoding(ed25519_public_key(self.spec_secret())),
    {
        JwkPub { kty: "OKP".to_owned(), crv: "Ed25519".to_owned(), x: self.pub_x_b64() }
    }

    /// The private key as base64url (for storage).
    pub fn priv_b64(&self) -> (s: String)
        ensures
            s@ == base64url_encoding(self.spec_secret()),
            secret_of_priv_b64(s@) == Ok::<Seq<u8>, WalletFault>(self.spec_secret()),
    {
        proof {
            use_type_invariant(self);
        }
        b64url_encode(self.secret.as_slice())
    }

    /// The public key as base64url.
    pub fn pub_x_b64(&self) -> (s: String)
        ensures
            s@ == base64url_encoding(ed25519_public_key(self.spec_secret())),
    {
        let public = ed25519_public(&self.secret);
        b64url_encode(public.as_slice())
    }

    /// Whether the wallet has expired at time `now`.
    pub fn is_expired_at(&self, now: i64) -> (r: bool)
        ensures
            r == expired_at(self.spec_created_at(), self.spec_ttl(), now),
    {
        match self.ttl_secs {
            Some(ttl) => (now as i128) > (self.created_at as i128) + (ttl as i128),
            None => false,
        }
    }

    /// Whether the wallet has expired at the time the clock reads when it is
    /// called. A wallet without time-to-live never expires.
    pub fn is_expired(&self) -> (r: bool)
        ensures
            exists|now: i64|
                clock_reading(now) && r == #[trigger] expired_at(
                    self.spec_created_at(),
                    self.spec_ttl(),
                    now,
                ),
            self.spec_ttl() is None ==> !r,
    {
        let now = clock_now();
        self.is_expired_at(now)
    }

    /// Signs a PoP for an HTTP request, now.
    pub fn sign_pop(&self, method: &str, path: &str) -> (r: Result<Pop, WalletError>)
        ensures
            self.spec_ttl() is None ==> r is Ok,
            exists|now: i64|
                clock_reading(now) && #[trigger] expired_at(
                    self.spec_created_at(),
                    self.spec_ttl(),
                    now,
                ) == (r is Err),
            match r {
                Ok(pop) => clock_reading(pop.payload.ts) && signed_pop(
                    pop,
                    self.spec_secret(),
                    self.spec_did(),
                    method@,
                    path@,
                    None,
                    pop.payload.ts,
                ),
                Err(e) => e@ is Expired,
            },
    {
        if self.is_expired() {
            return Err(WalletError::Expired);
        }
        self.sign_pop_with_ts(method, path, None, None)
    }

    /// Signs a PoP bound to an access token (`ath` = `blake3:<hex>` of the
    /// token), now.
    pub fn sign_pop_with_ath(&self, method: &str, path: &str, access_token: &str) -> (r: Result<
        Pop,
        WalletError,
    >)
        ensures
            self.spec_ttl() is None ==> r is Ok,
            exists|now: i64|
                clock_reading(now) && #[trigger] expired_at(
                    self.spec_created_at(),
                    self.spec_ttl(),
                    now,
                ) == (r is Err),
            match r {
                Ok(pop) => clock_reading(pop.payload.ts) && signed_pop(
                    pop,
                    self.spec_secret(),
                    self.spec_did(),
                    method@,
                    path@,
                    Some(access_token@),
                    pop.payload.ts,
                ),
                Err(e) => e@ is Expired,
            },
    {
        if self.is_expired() {
            return Err(WalletError::Expired);
        }
        self.sign_pop_with_ts(method, path, Some(access_token), None)
    }

    /// Signs a PoP at time `ts_override`, or now when it is `None`: the
    /// canonical JSON of the version-1 payload of the request (and of the
    /// token binding, when a token is given), signed with the wallet's key.
    /// It always succeeds.
    pub fn sign_pop_with_ts(
        &self,
        method: &str,
        path: &str,
        access_token: Option<&str>,
        ts_override: Option<i64>,
    ) -> (r: Result<Pop, WalletError>)
        ensures
            r matches Ok(pop) && signed_pop(
                pop,
                self.spec_secret(),
                self.spec_did(),
                method@,
                path@,
                match access_token {
                    Some(t) => Some(t@),
                    None => None,
                },
                pop.payload.ts,
            ) && match ts_override {
                Some(ts) => pop.payload.ts == ts,
                None => clock_reading(pop.payload.ts),
            },
    {
        let ts = match ts_override {
            Some(t) => t,
            None => clock_now(),
        };
        let ath: Option<String> = match access_token {
            Some(tok) => Some(token_binding_of(tok)),
            None => None,
        };
        let payload = PopPayloadV1 { v: 1, m: method.to_owned(), p: path.to_owned(), ts, ath };
        let canonical = canonize_json(&json_object_value(&payload.to_json_object()));
        self.sign_payload(payload, canonical)
    }

    /// Signs a payload, given the outcome of putting it in canonical JSON
    /// form: the PoP of the payload, those bytes, their signature under the
    /// wallet's key and the wallet's DID; else a signing error with the
    /// message.
    pub fn sign_payload(&self, payload: PopPayloadV1, canonical: Result<Vec<u8>, String>) -> (r:
        Result<Pop, WalletError>)
        ensures
            match canonical {
                Ok(b) => r matches Ok(pop) && pop.payload == payload && pop.payload_bytes@ == b@
                    && pop.signature@ == ed25519_signature(self.spec_secret(), b@)
                    && pop.wallet_did@ == self.spec_did(),
                Err(m) => r matches Err(e) && e@ == WalletFault::SigningError(m@),
            },
    {
        let payload_bytes = match canonical {
            Ok(b) => b,
            Err(m) => {
                return Err(WalletError::SigningError(m));
            },
        };
        let signature = ed25519_sign(&self.secret, payload_bytes.as_slice());
        let wallet_did = self.did.as_str().to_owned();
        Ok(Pop { payload, payload_bytes, signature, wallet_did })
    }
}

impl Clone for JwkPub {
    fn clone(&self) -> (j: JwkPub)
        ensures
            j == *self,
    {
        JwkPub { kty: self.kty.clone(), crv: self.crv.clone(), x: self.x.clone() }
    }
}

impl Clone for Wallet {
    fn clone(&self) -> (w: Wallet)
        ensures
            w.spec_secret() == self.spec_secret(),
            w.spec_did() == self.spec_did(),
            w.spec_created_at() == self.spec_created_at(),
            w.spec_ttl() == self.spec_ttl(),
    {
        proof {
            use_type_invariant(self);
        }
        Wallet {
            secret: self.secret,
            did: self.did.clone(),
            created_at: self.created_at,
            ttl_secs: self.ttl_secs,
        }
    }
}

} // verus!
