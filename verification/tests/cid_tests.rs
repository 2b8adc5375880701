use ubl_id::cid::CidError;
use ubl_id::Cid;

const HELLO: &str = "cid:blake3:d74981efa70a0c880b8d8c1985d075dbcbf679b99a5f9914e5aaf96b831a9e24";

#[test]
fn test_cid_from_bytes() {
    let cid = Cid::from_bytes(b"hello world");
    assert!(cid.as_str().starts_with("cid:blake3:"));
    assert_eq!(cid.hash().len(), 64);
}

#[test]
fn test_cid_from_json() {
    let obj: serde_json::Value = serde_json::from_str(r#"{"a": 1, "b": 2}"#).unwrap();
    let cid = Cid::from_json(&obj).unwrap();
    assert!(cid.as_str().starts_with("cid:blake3:"));

    // Same content, different key order: same CID
    let obj2: serde_json::Value = serde_json::from_str(r#"{"b": 2, "a": 1}"#).unwrap();
    let cid2 = Cid::from_json(&obj2).unwrap();
    assert_eq!(cid.hash(), cid2.hash());
}

#[test]
fn test_cid_parse() {
    let s = "cid:blake3:af1349b9f5f9a1a6a0404dea36dcc9499bcb25c9adc112b7cc9a93cae41f3262";
    let cid = Cid::parse(s).unwrap();
    assert_eq!(cid.as_str(), s);
    assert_eq!(cid.hash().len(), 64);
}

#[test]
fn test_cid_verify() {
    let data = b"test data";
    let cid = Cid::from_bytes(data);
    assert!(cid.verify(data));
    assert!(!cid.verify(b"wrong data"));
}

#[test]
fn cid_of_known_content() {
    let cid = Cid::from_bytes(b"hello world");
    assert_eq!(cid.as_str(), HELLO);
    assert_eq!(cid.to_string(), HELLO);
}

#[test]
fn cid_hash_bytes_are_the_digest() {
    let cid = Cid::from_bytes(b"hello world");
    assert_eq!(cid.hash_bytes(), Some(*blake3::hash(b"hello world").as_bytes()));
    let parsed = Cid::parse("cid:blake3:00ff10AB00000000000000000000000000000000000000000000000000000001").unwrap();
    let b = parsed.hash_bytes().unwrap();
    assert_eq!(&b[..4], &[0x00, 0xff, 0x10, 0xab]);
    assert_eq!(b[31], 1);
}

#[test]
fn cid_roundtrips_through_its_string() {
    let cid = Cid::from_bytes(b"some content");
    let again = Cid::parse(cid.as_str()).unwrap();
    assert_eq!(again, cid);
    let via_trait: Cid = cid.as_str().parse().unwrap();
    assert_eq!(via_trait.hash(), cid.hash());
}

#[test]
fn cid_parse_errors() {
    match Cid::parse("did:blake3:00") {
        Err(CidError::InvalidFormat(m)) => assert_eq!(m, "must start with 'cid:'"),
        other => panic!("unexpected {:?}", other),
    }
    match Cid::parse("cid:blake3") {
        Err(CidError::InvalidFormat(m)) => assert_eq!(m, "expected cid:algo:hash"),
        other => panic!("unexpected {:?}", other),
    }
    match Cid::parse("cid:sha256:00") {
        Err(e @ CidError::UnsupportedAlgorithm(_)) => {
            assert_eq!(e.to_string(), "unsupported hash algorithm: sha256")
        }
        other => panic!("unexpected {:?}", other),
    }
    match Cid::parse("cid:blake3:abc") {
        Err(CidError::InvalidEncoding(m)) => assert_eq!(m, "blake3 hash must be 64 hex chars"),
        other => panic!("unexpected {:?}", other),
    }
    let bad = format!("cid:blake3:{}g", "0".repeat(63));
    match Cid::parse(&bad) {
        Err(CidError::InvalidEncoding(m)) => assert_eq!(m, "invalid hex characters"),
        other => panic!("unexpected {:?}", other),
    }
    // 62 ASCII digits and one two-byte character: 64 bytes, not hex
    let multibyte = format!("cid:blake3:{}é", "0".repeat(62));
    match Cid::parse(&multibyte) {
        Err(CidError::InvalidEncoding(m)) => assert_eq!(m, "invalid hex characters"),
        other => panic!("unexpected {:?}", other),
    }
}

#[test]
fn cid_verify_is_case_sensitive_on_the_hash() {
    let upper = HELLO.replace("d74981efa", "D74981EFA");
    let cid = Cid::parse(&upper).unwrap();
    assert!(!cid.verify(b"hello world"));
    assert!(Cid::parse(HELLO).unwrap().verify(b"hello world"));
}

#[test]
fn cid_canonical_json_outcomes() {
    let ok = Cid::from_canonical_json(Ok(b"hello world".to_vec())).unwrap();
    assert_eq!(ok.as_str(), HELLO);
    match Cid::from_canonical_json(Err("boom".to_string())) {
        Err(e @ CidError::JsonError(_)) => assert_eq!(e.to_string(), "json serialization error: boom"),
        other => panic!("unexpected {:?}", other),
    }
    assert!(ok.verify_canonical_json(Ok(b"hello world".to_vec())));
    assert!(!ok.verify_canonical_json(Err("boom".to_string())));
}

#[test]
fn cid_verify_json_matches_from_json() {
    let obj: serde_json::Value = serde_json::from_str(r#"{"type": "policy", "version": "1.0"}"#).unwrap();
    let cid = Cid::from_json(&obj).unwrap();
    assert!(cid.verify_json(&obj));
    let other: serde_json::Value = serde_json::from_str(r#"{"type": "policy"}"#).unwrap();
    assert!(!cid.verify_json(&other));
    let float: serde_json::Value = serde_json::from_str(r#"{"x": 1.5}"#).unwrap();
    assert!(matches!(Cid::from_json(&float), Err(CidError::JsonError(_))));
    assert!(!cid.verify_json(&float));
}
