use base64::Engine;
use ubl_id::pop::PopError;
use ubl_id::wallet::WalletError;
use ubl_id::{build_pop_header, verify_pop, Pop, PopPayloadV1, Wallet};

const B64URL: base64::engine::GeneralPurpose = base64::engine::general_purpose::URL_SAFE_NO_PAD;

/// Reads the JSON of a payload the way a serde parse of `PopPayloadV1` does
/// for well-formed payloads.
fn parse_payload(bytes: &[u8]) -> Result<PopPayloadV1, String> {
    let v: serde_json::Value = serde_json::from_slice(bytes).map_err(|e| e.to_string())?;
    let field = |k: &str| v.get(k).ok_or_else(|| format!("missing field `{}`", k));
    Ok(PopPayloadV1 {
        v: field("v")?.as_i64().ok_or("v")? as i32,
        m: field("m")?.as_str().ok_or("m")?.to_string(),
        p: field("p")?.as_str().ok_or("p")?.to_string(),
        ts: field("ts")?.as_i64().ok_or("ts")?,
        ath: v.get("ath").and_then(|a| a.as_str()).map(|a| a.to_string()),
    })
}

fn decode(header: &str) -> Result<Pop, PopError> {
    let parsed = match Pop::decode_payload_bytes(header) {
        Ok(bytes) => parse_payload(&bytes),
        Err(e) => return Err(e),
    };
    Pop::decode(header, parsed)
}

#[test]
fn test_pop_roundtrip() {
    let w = Wallet::generate();
    let pop = w.sign_pop("GET", "/test").unwrap();

    let encoded = pop.encode();
    println!("Encoded: {}", encoded);

    let parts: Vec<&str> = encoded.split('.').collect();
    assert_eq!(parts.len(), 3, "Wire format must have 3 parts");

    let decoded = decode(&encoded).unwrap();
    assert_eq!(decoded.wallet_did, w.did().as_str());
    assert_eq!(decoded.payload.m, "GET");
    assert_eq!(decoded.payload.p, "/test");
    assert_eq!(decoded.payload.v, 1);
}

#[test]
fn test_pop_verify() {
    let w = Wallet::generate();
    let pop = w.sign_pop("POST", "/v1/chips/mint").unwrap();

    let result = pop.verify("POST", "/v1/chips/mint", 300, None);
    assert!(result.is_ok());
    assert_eq!(result.unwrap().as_str(), w.did().as_str());
}

#[test]
fn test_pop_with_ath() {
    let w = Wallet::generate();
    let token = "Bearer my-access-token";
    let pop = w.sign_pop_with_ath("POST", "/v1/chips/mint", token).unwrap();

    assert!(pop.payload.ath.is_some());
    let ath = pop.payload.ath.as_ref().unwrap();
    assert!(ath.starts_with("blake3:"), "ath must be blake3:<hex> format");
    assert_eq!(ath.len(), 7 + 64, "ath must be blake3: + 64 hex chars");

    let result = pop.verify("POST", "/v1/chips/mint", 300, Some(token));
    assert!(result.is_ok());

    let result2 = pop.verify("POST", "/v1/chips/mint", 300, Some("wrong-token"));
    assert!(matches!(result2, Err(PopError::TokenMismatch)));
}

#[test]
fn test_pop_request_mismatch() {
    let w = Wallet::generate();
    let pop = w.sign_pop("POST", "/v1/chips/mint").unwrap();

    let result = pop.verify("GET", "/v1/chips/mint", 300, None);
    assert!(matches!(result, Err(PopError::RequestMismatch)));
}

#[test]
fn test_pop_wire_format_decode() {
    let w = Wallet::generate();
    let pop = w.sign_pop("POST", "/t/logline/v1/chip/mint").unwrap();
    let encoded = pop.encode();

    let parts: Vec<&str> = encoded.split('.').collect();
    assert_eq!(parts.len(), 3);

    let payload_bytes = B64URL.decode(parts[0]).unwrap();
    let payload = parse_payload(&payload_bytes).unwrap();
    assert_eq!(payload.v, 1);
    assert_eq!(payload.m, "POST");
    assert_eq!(payload.p, "/t/logline/v1/chip/mint");

    let sig_bytes = B64URL.decode(parts[1]).unwrap();
    assert_eq!(sig_bytes.len(), 64);

    assert!(parts[2].starts_with("did:key:z"));
}

fn fixed_wallet() -> Wallet {
    Wallet::from_priv_b64(&B64URL.encode([7u8; 32])).unwrap()
}

#[test]
fn payload_bytes_are_canonical_json() {
    let w = fixed_wallet();
    let pop = w.sign_pop_with_ts("POST", "/x", None, Some(1704067200)).unwrap();
    assert_eq!(
        String::from_utf8(pop.payload_bytes.clone()).unwrap(),
        r#"{"m":"POST","p":"/x","ts":1704067200,"v":1}"#
    );
    let bound = w.sign_pop_with_ts("POST", "/x", Some("tok"), Some(5)).unwrap();
    let expected_ath = format!("blake3:{}", blake3::hash(b"tok").to_hex());
    assert_eq!(bound.payload.ath.as_deref(), Some(expected_ath.as_str()));
    assert_eq!(
        String::from_utf8(bound.payload_bytes.clone()).unwrap(),
        format!(r#"{{"ath":"{}","m":"POST","p":"/x","ts":5,"v":1}}"#, expected_ath)
    );
    assert_eq!(bound.ts(), 5);
    assert_eq!(bound.method(), "POST");
    assert_eq!(bound.path(), "/x");
}

#[test]
fn signed_pop_verifies_within_skew_only() {
    let w = fixed_wallet();
    let pop = w.sign_pop_with_ts("post", "/a", None, Some(1000)).unwrap();
    let did = pop.verify_at("POST", "/a", 60, None, 1060).unwrap();
    assert_eq!(did.as_str(), w.did().as_str());
    assert!(pop.verify_at("POST", "/a", 60, None, 940).is_ok());
    assert!(matches!(pop.verify_at("POST", "/a", 60, None, 1061), Err(PopError::TimestampSkew)));
    assert!(matches!(pop.verify_at("POST", "/a", 60, None, 939), Err(PopError::TimestampSkew)));
    assert!(matches!(pop.verify_at("POST", "/b", 60, None, 1000), Err(PopError::RequestMismatch)));
    // extreme times do not overflow
    assert!(matches!(pop.verify_at("POST", "/a", i64::MAX, None, i64::MIN), Err(PopError::TimestampSkew)));
}

#[test]
fn token_bound_pop_needs_the_token() {
    let w = fixed_wallet();
    let pop = w.sign_pop_with_ts("GET", "/t", Some("secret-token"), Some(50)).unwrap();
    assert!(matches!(pop.verify_at("GET", "/t", 10, None, 50), Err(PopError::TokenMismatch)));
    assert!(matches!(pop.verify_at("GET", "/t", 10, Some("other"), 50), Err(PopError::TokenMismatch)));
    assert!(pop.verify_at("GET", "/t", 10, Some("secret-token"), 50).is_ok());
    // a PoP without binding accepts any token
    let unbound = w.sign_pop_with_ts("GET", "/t", None, Some(50)).unwrap();
    assert!(unbound.verify_at("GET", "/t", 10, Some("anything"), 50).is_ok());
}

#[test]
fn tampered_pop_is_refused() {
    let w = fixed_wallet();
    let mut pop = w.sign_pop_with_ts("GET", "/t", None, Some(50)).unwrap();
    pop.signature[0] ^= 1;
    assert!(matches!(pop.verify_at("GET", "/t", 10, None, 50), Err(PopError::SignatureFailed)));

    let mut pop2 = w.sign_pop_with_ts("GET", "/t", None, Some(50)).unwrap();
    pop2.payload.v = 2;
    assert!(matches!(pop2.verify_at("GET", "/t", 10, None, 50), Err(PopError::UnsupportedVersion(2))));

    let mut pop3 = w.sign_pop_with_ts("GET", "/t", None, Some(50)).unwrap();
    pop3.wallet_did = "did:ubl:user:x".to_string();
    assert!(matches!(pop3.verify_at("GET", "/t", 10, None, 50), Err(PopError::InvalidDid)));
    pop3.wallet_did = "not a did".to_string();
    assert!(matches!(pop3.verify_at("GET", "/t", 10, None, 50), Err(PopError::InvalidDid)));

    let other = Wallet::from_priv_b64(&B64URL.encode([9u8; 32])).unwrap();
    let mut pop4 = w.sign_pop_with_ts("GET", "/t", None, Some(50)).unwrap();
    pop4.wallet_did = other.did().as_str().to_string();
    assert!(matches!(pop4.verify_at("GET", "/t", 10, None, 50), Err(PopError::SignatureFailed)));
}

#[test]
fn decode_refusals() {
    assert!(matches!(decode("a.b"), Err(PopError::InvalidWireFormat)));
    assert!(matches!(decode("a.b.c.d"), Err(PopError::InvalidWireFormat)));
    match decode("!!.b.c") {
        Err(PopError::InvalidEncoding(m)) => assert_eq!(m, "payload base64"),
        other => panic!("unexpected {:?}", other),
    }
    let not_json = B64URL.encode(b"nope");
    assert!(matches!(decode(&format!("{}.b.c", not_json)), Err(PopError::InvalidJson(_))));
    let v2 = B64URL.encode(br#"{"v":2,"m":"GET","p":"/","ts":0}"#);
    assert!(matches!(decode(&format!("{}.b.c", v2)), Err(PopError::UnsupportedVersion(2))));
    let v1 = B64URL.encode(br#"{"v":1,"m":"GET","p":"/","ts":0}"#);
    match decode(&format!("{}.!!.c", v1)) {
        Err(PopError::InvalidEncoding(m)) => assert_eq!(m, "signature base64"),
        other => panic!("unexpected {:?}", other),
    }
    match decode(&format!("{}.{}.c", v1, B64URL.encode([0u8; 10]))) {
        Err(PopError::InvalidEncoding(m)) => assert_eq!(m, "signature must be 64 bytes"),
        other => panic!("unexpected {:?}", other),
    }
    let ok = decode(&format!("{}.{}.did:key:zX", v1, B64URL.encode([3u8; 64]))).unwrap();
    assert_eq!(ok.wallet_did, "did:key:zX");
    assert_eq!(ok.signature, [3u8; 64]);
    assert_eq!(Pop::decode_payload_bytes(&format!("{}.x.y", v1)).unwrap(), br#"{"v":1,"m":"GET","p":"/","ts":0}"#.to_vec());
}

#[test]
fn build_and_verify_header() {
    let priv_b64 = B64URL.encode([7u8; 32]);
    let header = build_pop_header("POST", "/v1/chips/mint", &priv_b64, Some("tok")).unwrap();
    let parsed = parse_payload(&Pop::decode_payload_bytes(&header).unwrap());
    let did = verify_pop(&header, parsed, "post", "/v1/chips/mint", 300, Some("tok")).unwrap();
    assert_eq!(did.as_str(), fixed_wallet().did().as_str());

    let parsed = parse_payload(&Pop::decode_payload_bytes(&header).unwrap());
    assert!(matches!(
        verify_pop(&header, parsed, "POST", "/v1/chips/mint", 300, None),
        Err(PopError::TokenMismatch)
    ));
    assert!(matches!(
        verify_pop("x.y", Err("unused".to_string()), "POST", "/", 300, None),
        Err(PopError::InvalidWireFormat)
    ));
}

#[test]
fn build_pop_header_refuses_bad_keys() {
    match build_pop_header("GET", "/", "!!", None) {
        Err(PopError::InvalidEncoding(m)) => assert_eq!(m, "invalid key encoding: bad base64"),
        other => panic!("unexpected {:?}", other),
    }
    match build_pop_header("GET", "/", &B64URL.encode([1u8; 16]), None) {
        Err(PopError::InvalidEncoding(m)) => assert_eq!(m, "invalid key encoding: expected 32 bytes"),
        other => panic!("unexpected {:?}", other),
    }
}

#[test]
fn pop_error_messages() {
    assert_eq!(PopError::UnsupportedVersion(-42).to_string(), "unsupported version: -42");
    assert_eq!(PopError::UnsupportedVersion(2147483647).to_string(), "unsupported version: 2147483647");
    assert_eq!(PopError::UnsupportedVersion(i32::MIN).to_string(), "unsupported version: -2147483648");
    assert_eq!(PopError::UnsupportedVersion(0).to_string(), "unsupported version: 0");
    assert_eq!(PopError::InvalidJson("eof".into()).to_string(), "invalid JSON: eof");
    assert_eq!(PopError::TimestampSkew.to_string(), "timestamp skew too large");
    assert_eq!(PopError::InvalidWireFormat.to_string(), "invalid wire format");
}

#[test]
fn error_messages() {
    assert_eq!(WalletError::Expired.to_string(), "expired wallet");
    assert_eq!(
        WalletError::SigningError("x".to_string()).to_string(),
        "signing error: x"
    );
}

#[test]
fn payload_json_escapes_and_normalizes_strings() {
    let w = fixed_wallet();
    let pop = w.sign_pop_with_ts("GET", "/a\"b\\c", None, Some(-3)).unwrap();
    assert_eq!(
        String::from_utf8(pop.payload_bytes.clone()).unwrap(),
        r#"{"m":"GET","p":"/a\"b\\c","ts":-3,"v":1}"#
    );
    let decoded = decode(&pop.encode()).unwrap();
    assert_eq!(decoded.payload.p, "/a\"b\\c");
    assert_eq!(decoded.payload_bytes, pop.payload_bytes);
}
