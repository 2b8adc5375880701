use ubl_id::resolve::{
    alias_outcome, alias_url, bearer_authorization, lookup_outcome, registration_outcome,
    registration_ttl, subject_url, wallet_url, wallets_url, HttpOutcome, WalletInfo,
};

#[test]
fn directory_urls() {
    assert_eq!(alias_url("https://dir.example//", "logline", "daniel"), "https://dir.example/v1/aliases/logline/daniel");
    assert_eq!(subject_url("https://dir.example/", "did:ubl:user:daniel"), "https://dir.example/v1/subjects/did%3Aubl%3Auser%3Adaniel");
    assert_eq!(wallet_url("http://d", "did:key:zAb"), "http://d/v1/wallets/did%3Akey%3AzAb");
    assert_eq!(wallets_url("http://d/"), "http://d/v1/wallets");
    assert_eq!(wallets_url("///"), "/v1/wallets");
    assert_eq!(bearer_authorization("tok"), "Bearer tok");
}

#[test]
fn registration_ttl_defaults_to_an_hour() {
    assert_eq!(registration_ttl(None), 3600);
    assert_eq!(registration_ttl(Some(60)), 60);
}

#[test]
fn lookup_outcomes() {
    assert_eq!(lookup_outcome(HttpOutcome::Body(5)), Ok(Some(5)));
    assert_eq!(lookup_outcome::<i32>(HttpOutcome::Failed(Some(404), "nf".into())), Ok(None));
    assert_eq!(lookup_outcome::<i32>(HttpOutcome::Failed(Some(500), "boom".into())), Err("boom".to_string()));
    assert_eq!(lookup_outcome::<i32>(HttpOutcome::Failed(None, "dns".into())), Err("dns".to_string()));
    assert_eq!(lookup_outcome::<i32>(HttpOutcome::BadBody("bad".into())), Err("bad".to_string()));
    assert_eq!(alias_outcome(HttpOutcome::Body(Some("did:x".into()))), Ok(Some("did:x".to_string())));
    assert_eq!(alias_outcome(HttpOutcome::Body(None)), Ok(None));
    assert_eq!(alias_outcome(HttpOutcome::Failed(Some(404), "nf".into())), Ok(None));
}

#[test]
fn registration_outcomes() {
    let info = WalletInfo { did: "did:key:z1".into(), owner_did: "did:ubl:user:d".into(), expires_at: Some(9) };
    assert_eq!(registration_outcome(HttpOutcome::Body(info)).unwrap().expires_at, Some(9));
    assert_eq!(registration_outcome(HttpOutcome::BadBody("eof".into())).unwrap_err(), "json error: eof");
    assert_eq!(registration_outcome(HttpOutcome::Failed(Some(404), "nf".into())).unwrap_err(), "request failed: nf");
}
