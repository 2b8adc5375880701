use ubl_id::did::{DidError, DidMethod, DidType};
use ubl_id::Did;

#[test]
fn test_did_ubl() {
    let did = Did::ubl(DidType::User, "daniel");
    assert_eq!(did.as_str(), "did:ubl:user:daniel");
    assert_eq!(did.method(), &DidMethod::Ubl);
    assert_eq!(did.ubl_type(), Some(DidType::User));
    assert_eq!(did.ubl_id(), Some("daniel"));
}

#[test]
fn test_did_key() {
    let pk = [1u8; 32];
    let did = Did::key_from_ed25519(&pk);
    assert!(did.as_str().starts_with("did:key:z"));
    assert_eq!(did.method(), &DidMethod::Key);
    assert_eq!(did.key_bytes(), Some(pk));
}

#[test]
fn test_did_parse() {
    let did = Did::parse("did:ubl:agent:gpt4").unwrap();
    assert_eq!(did.ubl_type(), Some(DidType::Agent));
    assert_eq!(did.ubl_id(), Some("gpt4"));
}

#[test]
fn did_parse_keeps_the_string_and_method() {
    let did = Did::parse("did:web:example.com").unwrap();
    assert_eq!(did.as_str(), "did:web:example.com");
    assert_eq!(did.method(), &DidMethod::Web);
    assert_eq!(did.ubl_type(), None);
    assert_eq!(did.ubl_id(), None);
    assert!(!did.can_sign());
    assert_eq!(did.to_string(), "did:web:example.com");
}

#[test]
fn did_parse_refuses_missing_prefix() {
    match Did::parse("dad:ubl:user:x") {
        Err(DidError::InvalidFormat(m)) => assert_eq!(m, "must start with 'did:'"),
        other => panic!("unexpected {:?}", other),
    }
}

#[test]
fn did_parse_refuses_missing_method_or_id() {
    match Did::parse("did:ubl") {
        Err(DidError::InvalidFormat(m)) => assert_eq!(m, "missing method or id"),
        other => panic!("unexpected {:?}", other),
    }
}

#[test]
fn did_parse_refuses_unknown_method() {
    match Did::parse("did:foo:bar") {
        Err(e @ DidError::UnsupportedMethod(_)) => {
            assert_eq!(e.to_string(), "unsupported DID method: foo");
        }
        other => panic!("unexpected {:?}", other),
    }
}

#[test]
fn did_parse_accepts_empty_id() {
    let did = Did::parse("did:ubl:").unwrap();
    assert_eq!(did.method(), &DidMethod::Ubl);
    assert_eq!(did.ubl_type(), None);
    assert_eq!(did.ubl_id(), None);
}

#[test]
fn ubl_id_keeps_later_colons() {
    let did = Did::ubl(DidType::Org, "a:b:c");
    assert_eq!(did.as_str(), "did:ubl:org:a:b:c");
    assert_eq!(did.ubl_type(), Some(DidType::Org));
    assert_eq!(did.ubl_id(), Some("a:b:c"));
    let reparsed = Did::parse(did.as_str()).unwrap();
    assert_eq!(reparsed, did);
}

#[test]
fn ubl_type_unknown_name_reads_as_none() {
    let did = Did::parse("did:ubl:robot:r2").unwrap();
    assert_eq!(did.ubl_type(), None);
    assert_eq!(did.ubl_id(), Some("r2"));
    assert!(did.can_sign());
}

#[test]
fn every_ubl_type_reads_back() {
    for t in [
        DidType::User,
        DidType::Org,
        DidType::Agent,
        DidType::App,
        DidType::Wallet,
        DidType::Service,
    ] {
        let did = Did::ubl(t, "x");
        assert_eq!(did.ubl_type(), Some(t));
        assert_eq!(DidType::from_str(&t.to_string()).unwrap(), t);
    }
    assert_eq!(DidType::Service.to_string(), "service");
}

#[test]
fn did_type_from_str_refuses_unknown() {
    match DidType::from_str("robot") {
        Err(e @ DidError::InvalidType(_)) => assert_eq!(e.to_string(), "invalid UBL type: robot"),
        other => panic!("unexpected {:?}", other),
    }
}

#[test]
fn did_web_and_method_names() {
    let did = Did::web("example.com");
    assert_eq!(did.as_str(), "did:web:example.com");
    assert_eq!(did.method().to_string(), "web");
    assert_eq!(DidMethod::default(), DidMethod::Ubl);
}

#[test]
fn did_key_encoding_is_base64url() {
    let did = Did::key_from_ed25519(&[0u8; 32]);
    assert_eq!(did.as_str(), format!("did:key:z{}", "A".repeat(43)));
}

#[test]
fn did_key_w3c_is_base58_multicodec() {
    let did = Did::key_from_ed25519_w3c(&[0u8; 32]);
    assert!(did.as_str().starts_with("did:key:z"));
    assert_eq!(did.method(), &DidMethod::Key);
    let expected = format!("did:key:z{}", bs58::encode([&[0xedu8, 0x01][..], &[0u8; 32][..]].concat()).into_string());
    assert_eq!(did.as_str(), expected);
}

#[test]
fn key_bytes_refuses_bad_keys() {
    assert_eq!(Did::parse("did:key:abc").unwrap().key_bytes(), None);
    assert_eq!(Did::parse("did:key:z!!!").unwrap().key_bytes(), None);
    assert_eq!(Did::parse("did:key:zAAAA").unwrap().key_bytes(), None);
    assert_eq!(Did::ubl(DidType::User, "x").key_bytes(), None);
}

#[test]
fn did_from_str_trait() {
    let d: Did = "did:ubl:app:minicontratos".parse().unwrap();
    assert_eq!(d.ubl_type(), Some(DidType::App));
    let t: DidType = "wallet".parse().unwrap();
    assert_eq!(t, DidType::Wallet);
    let r: &str = d.as_ref();
    assert_eq!(r, "did:ubl:app:minicontratos");
}
