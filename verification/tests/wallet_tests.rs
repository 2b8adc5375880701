use base64::Engine;
use ed25519_dalek::Signer;
use ubl_id::wallet::WalletError;
use ubl_id::{Did, Wallet};

const B64URL: base64::engine::GeneralPurpose = base64::engine::general_purpose::URL_SAFE_NO_PAD;

#[test]
fn test_wallet_generate() {
    let w = Wallet::generate();
    assert!(w.did().as_str().starts_with("did:key:z"));
    assert!(!w.is_expired());
}

#[test]
fn test_wallet_roundtrip() {
    let w1 = Wallet::generate();
    let priv_b64 = w1.priv_b64();
    let w2 = Wallet::from_priv_b64(&priv_b64).unwrap();
    assert_eq!(w1.did().as_str(), w2.did().as_str());
}

#[test]
fn test_wallet_sign_pop() {
    let w = Wallet::generate();
    let pop = w.sign_pop("POST", "/v1/chips/mint").unwrap();
    assert_eq!(pop.wallet_did, w.did().as_str());
    assert_eq!(pop.method(), "POST");
    assert_eq!(pop.path(), "/v1/chips/mint");
}

#[test]
fn wallet_keys_match_dalek() {
    let secret = [42u8; 32];
    let w = Wallet::from_priv_b64(&B64URL.encode(secret)).unwrap();
    let vk = ed25519_dalek::SigningKey::from_bytes(&secret).verifying_key().to_bytes();
    assert_eq!(w.did().key_bytes(), Some(vk));
    assert_eq!(w.did().as_str(), Did::key_from_ed25519(&vk).as_str());
    assert_eq!(w.pub_x_b64(), B64URL.encode(vk));
    assert_eq!(w.priv_b64(), B64URL.encode(secret));
    let jwk = w.jwk_pub();
    assert_eq!(jwk.kty, "OKP");
    assert_eq!(jwk.crv, "Ed25519");
    assert_eq!(jwk.x, B64URL.encode(vk));
    assert_eq!(w.ttl_secs(), None);
}

#[test]
fn wallet_restore_errors() {
    match Wallet::from_priv_b64("not base64!") {
        Err(WalletError::InvalidKey(m)) => assert_eq!(m, "bad base64"),
        other => panic!("unexpected {:?}", other.map(|w| w.did().as_str().to_string())),
    }
    match Wallet::from_priv_b64(&B64URL.encode([0u8; 31])) {
        Err(e @ WalletError::InvalidKey(_)) => {
            assert_eq!(e.to_string(), "invalid key encoding: expected 32 bytes")
        }
        other => panic!("unexpected {:?}", other.map(|w| w.did().as_str().to_string())),
    }
}

#[test]
fn wallet_expiry() {
    let w = Wallet::generate_with_ttl(3600);
    assert_eq!(w.ttl_secs(), Some(3600));
    assert!(!w.is_expired());
    let c = w.created_at();
    assert!(!w.is_expired_at(c + 3600));
    assert!(w.is_expired_at(c + 3601));
    let expired = Wallet::generate_with_ttl(-10);
    assert!(expired.is_expired());
    assert!(matches!(expired.sign_pop("GET", "/"), Err(WalletError::Expired)));
    assert!(matches!(expired.sign_pop_with_ath("GET", "/", "t"), Err(WalletError::Expired)));
    let huge = Wallet::generate_with_ttl(i64::MAX);
    assert!(!huge.is_expired());
    let forever = Wallet::generate();
    assert!(!forever.is_expired_at(i64::MAX));
}

#[test]
fn wallet_clone_keeps_keys() {
    let w = Wallet::generate();
    let c = w.clone();
    assert_eq!(c.did().as_str(), w.did().as_str());
    assert_eq!(c.priv_b64(), w.priv_b64());
}

#[test]
fn wallet_from_secret_key_and_sign_payload() {
    let secret = [5u8; 32];
    let w = Wallet::from_secret_key(secret, 100, Some(10));
    assert_eq!(w.created_at(), 100);
    assert_eq!(w.ttl_secs(), Some(10));
    assert!(!w.is_expired_at(110));
    assert!(w.is_expired_at(111));
    assert_eq!(w.priv_b64(), B64URL.encode(secret));

    let payload = ubl_id::PopPayloadV1 { v: 1, m: "GET".into(), p: "/".into(), ts: 100, ath: None };
    let pop = w.sign_payload(payload.clone(), Ok(b"abc".to_vec())).unwrap();
    assert_eq!(pop.payload_bytes, b"abc".to_vec());
    let expected = ed25519_dalek::SigningKey::from_bytes(&secret).sign(b"abc").to_bytes();
    assert_eq!(pop.signature, expected);
    assert_eq!(pop.wallet_did, w.did().as_str());
    match w.sign_payload(payload, Err("float".into())) {
        Err(e @ WalletError::SigningError(_)) => assert_eq!(e.to_string(), "signing error: float"),
        other => panic!("unexpected {:?}", other.map(|p| p.wallet_did)),
    }
}
