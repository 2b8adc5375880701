use ubl_id::did::DidError;
use ubl_id::ident::IdentError;
use ubl_id::{Cid, Did, Ident};

#[test]
fn test_ident_parse_did() {
    let ident = Ident::parse("did:ubl:user:daniel").unwrap();
    assert!(ident.is_did());
    assert!(!ident.is_cid());
    assert!(ident.can_sign());
}

#[test]
fn test_ident_parse_cid() {
    let ident = Ident::parse(
        "cid:blake3:af1349b9f5f9a1a6a0404dea36dcc9499bcb25c9adc112b7cc9a93cae41f3262",
    )
    .unwrap();
    assert!(ident.is_cid());
    assert!(!ident.is_did());
    assert!(!ident.can_sign());
}

#[test]
fn test_ident_unknown_scheme() {
    let result = Ident::parse("foo:bar:baz");
    assert!(matches!(result, Err(IdentError::UnknownScheme(_))));
}

#[test]
fn ident_unknown_scheme_names_the_scheme() {
    match Ident::parse("foo:bar:baz") {
        Err(e @ IdentError::UnknownScheme(_)) => {
            assert_eq!(e.to_string(), "unknown identifier scheme: foo")
        }
        other => panic!("unexpected {:?}", other),
    }
    match Ident::parse("nocolon") {
        Err(IdentError::UnknownScheme(s)) => assert_eq!(s, "nocolon"),
        other => panic!("unexpected {:?}", other),
    }
}

#[test]
fn ident_passes_on_inner_errors() {
    match Ident::parse("did:foo:x") {
        Err(e @ IdentError::Did(DidError::UnsupportedMethod(_))) => {
            assert_eq!(e.to_string(), "DID error: unsupported DID method: foo")
        }
        other => panic!("unexpected {:?}", other),
    }
    assert!(matches!(Ident::parse("cid:md5:00"), Err(IdentError::Cid(_))));
}

#[test]
fn ident_accessors() {
    let did = Did::web("example.com");
    let ident: Ident = did.clone().into();
    assert_eq!(ident.as_did(), Some(&did));
    assert!(ident.as_cid().is_none());
    assert_eq!(ident.as_str(), "did:web:example.com");
    assert!(!ident.can_sign());
    let cid = Cid::from_bytes(b"x");
    let ident2 = Ident::from(cid.clone());
    assert_eq!(ident2.as_cid(), Some(&cid));
    assert_eq!(ident2.to_string(), cid.as_str());
    let parsed: Ident = ident2.as_str().parse().unwrap();
    assert_eq!(parsed, ident2);
    assert_ne!(parsed, ident);
}
