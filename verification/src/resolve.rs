//! DID and alias resolution against a UBL Directory: the request URLs and
//! what a response means. The HTTP exchange itself is the caller's.
use vstd::prelude::*;

use crate::text::chars_of;

verus! {

/// Subject information from the Directory.
#[derive(Debug, Clone)]
pub struct Subject {
    pub did: String,
    pub kind: String,
    pub display_name: Option<String>,
    pub metadata: Option<serde_json::Value>,
}

/// Wallet registration in the Directory.
#[derive(Debug)]
pub struct WalletInfo {
    pub did: String,
    pub owner_did: String,
    pub expires_at: Option<i64>,
}

impl Clone for WalletInfo {
    fn clone(&self) -> (w: WalletInfo)
        ensures
            w == *self,
    {
        WalletInfo {
            did: self.did.clone(),
            owner_did: self.owner_did.clone(),
            expires_at: self.expires_at,
        }
    }
}

/// How an HTTP exchange with the Directory ended.
pub enum HttpOutcome<T> {
    /// A success response whose JSON body was read.
    Body(T),
    /// A success response whose JSON body could not be read (the message).
    BadBody(String),
    /// No success response: the status code when there was one, and the message.
    Failed(Option<u16>, String),
}

/// A base URL without its trailing slashes (`trim_end_matches('/')`).
pub open spec fn trim_trailing_slashes(s: Seq<char>) -> Seq<char>
    decreases s.len(),
{
    if s.len() > 0 && s.last() == '/' {
        trim_trailing_slashes(s.drop_last())
    } else {
        s
    }
}

/// A text with every colon written as `%3A`.
pub open spec fn escape_colons(s: Seq<char>) -> Seq<char>
    decreases s.len(),
{
    if s.len() == 0 {
        s
    } else {
        escape_colons(s.drop_last()) + if s.last() == ':' {
            "%3A"@
        } else {
            seq![s.last()]
        }
    }
}

/// The URL of an alias: `<base>/v1/aliases/<namespace>/<name>`.
pub open spec fn alias_url_of(base: Seq<char>, namespace: Seq<char>, name: Seq<char>) -> Seq<char> {
    trim_trailing_slashes(base) + "/v1/aliases/"@ + namespace + "/"@ + name
}

/// The URL of a subject: `<base>/v1/subjects/<did with %3A for colons>`.
pub open spec fn subject_url_of(base: Seq<char>, did: Seq<char>) -> Seq<char> {
    trim_trailing_slashes(base) + "/v1/subjects/"@ + escape_colons(did)
}

/// The URL of a wallet: `<base>/v1/wallets/<did with %3A for colons>`.
pub open spec fn wallet_url_of(base: Seq<char>, did: Seq<char>) -> Seq<char> {
    trim_trailing_slashes(base) + "/v1/wallets/"@ + escape_colons(did)
}

/// The URL wallets are registered at: `<base>/v1/wallets`.
pub open spec fn wallets_url_of(base: Seq<char>) -> Seq<char> {
    trim_trailing_slashes(base) + "/v1/wallets"@
}

/// The base URL without its trailing slashes.
fn trimmed_base(dir_base: &str) -> (s: String)
    ensures
        s@ == trim_trailing_slashes(dir_base@),
{
    let v = chars_of(dir_base);
    let mut end = v.len();
    assert(v@.take(end as int) =~= v@);
    while end > 0 && v[end - 1] == '/'
        invariant
            end <= v.len(),
            v@ == dir_base@,
            trim_trailing_slashes(dir_base@) == trim_trailing_slashes(v@.take(end as int)),
        decreases end,
    {
        assert(v@.take(end as int).drop_last() =~= v@.take(end - 1));
        end -= 1;
    }
    assert(trim_trailing_slashes(v@.take(end as int)) == v@.take(end as int));
    dir_base.substring_char(0, end).to_owned()
}

/// Appends a text with every colon written as `%3A`.
fn append_escaped(out: &mut String, s: &str)
    ensures
        final(out)@ == old(out)@ + escape_colons(s@),
{
    let n = s.unicode_len();
    let mut i: usize = 0;
    while i < n
        invariant
            n == s@.len(),
            i <= n,
            out@ == old(out)@ + escape_colons(s@.take(i as int)),
        decreases n - i,
    {
        let c = s.get_char(i);
        assert(s@.take(i + 1).drop_last() =~= s@.take(i as int));
        if c == ':' {
            out.append("%3A");
        } else {
            out.append(s.substring_char(i, i + 1));
        }
        assert(out@ =~= old(out)@ + escape_colons(s@.take(i + 1)));
        i += 1;
    }
    assert(s@.take(n as int) =~= s@);
}

/// The URL that resolves a `namespace/name` alias.
pub fn alias_url(dir_base: &str, namespace: &str, name: &str) -> (u: String)
    ensures
        u@ == alias_url_of(dir_base@, namespace@, name@),
{
    let mut u = trimmed_base(dir_base);
    u.append("/v1/aliases/");
    u.append(namespace);
    u.append("/");
    u.append(name);
    u
}

/// The URL that resolves a DID to its subject.
pub fn subject_url(dir_base: &str, did: &str) -> (u: String)
    ensures
        u@ == subject_url_of(dir_base@, did@),
{
    let mut u = trimmed_base(dir_base);
    u.append("/v1/subjects/");
    append_escaped(&mut u, did);
    u
}

/// The URL that looks a wallet up.
pub fn wallet_url(dir_base: &str, wallet_did: &str) -> (u: String)
    ensures
        u@ == wallet_url_of(dir_base@, wallet_did@),
{
    let mut u = trimmed_base(dir_base);
    u.append("/v1/wallets/");
    append_escaped(&mut u, wallet_did);
    u
}

/// The URL wallets are registered at.
pub fn wallets_url(dir_base: &str) -> (u: String)
    ensures
        u@ == wallets_url_of(dir_base@),
{
    let mut u = trimmed_base(dir_base);
    u.append("/v1/wallets");
    u
}

/// The value of the `authorization` header for a Bearer token.
pub fn bearer_authorization(token: &str) -> (h: String)
    ensures
        h@ == "Bearer "@ + token@,
{
    let mut h = "Bearer ".to_owned();
    h.append(token);
    h
}

/// The time-to-live a wallet is registered with: the one asked for, else
/// one hour.
pub fn registration_ttl(ttl_secs: Option<i64>) -> (t: i64)
    ensures
        t == match ttl_secs {
            Some(t) => t,
            None => 3600,
        },
{
    match ttl_secs {
        Some(t) => t,
        None => 3600,
    }
}

/// What a lookup in the Directory gives: the body's value, nothing when the
/// Directory answers 404, else the message.
pub fn lookup_outcome<T>(outcome: HttpOutcome<T>) -> (r: Result<Option<T>, String>)
    ensures
        match outcome {
            HttpOutcome::Body(t) => r == Ok::<Option<T>, String>(Some(t)),
            HttpOutcome::BadBody(m) => r matches Err(e) && e@ == m@,
            HttpOutcome::Failed(status, m) => if status == Some(404u16) {
                r == Ok::<Option<T>, String>(None)
            } else {
                r matches Err(e) && e@ == m@
            },
        },
{
    match outcome {
        HttpOutcome::Body(t) => Ok(Some(t)),
        HttpOutcome::BadBody(m) => Err(m),
        HttpOutcome::Failed(status, m) => {
            if status == Some(404u16) {
                Ok(None)
            } else {
                Err(m)
            }
        },
    }
}

/// What resolving an alias gives: the `did` member of the body when it has
/// a string there, nothing when it has none or the alias is unknown (404),
/// else the message.
pub fn alias_outcome(outcome: HttpOutcome<Option<String>>) -> (r: Result<Option<String>, String>)
    ensures
        match outcome {
            HttpOutcome::Body(d) => r == Ok::<Option<String>, String>(d),
            HttpOutcome::BadBody(m) => r matches Err(e) && e@ == m@,
            HttpOutcome::Failed(status, m) => if status == Some(404u16) {
                r == Ok::<Option<String>, String>(None)
            } else {
                r matches Err(e) && e@ == m@
            },
        },
{
    match lookup_outcome(outcome) {
        Ok(Some(d)) => Ok(d),
        Ok(None) => Ok(None),
        Err(m) => Err(m),
    }
}

/// What registering a wallet gives: the registration, else the message
/// prefixed by `json error: ` (unreadable body) or `request failed: `.
pub fn registration_outcome(outcome: HttpOutcome<WalletInfo>) -> (r: Result<WalletInfo, String>)
    ensures
        match outcome {
            HttpOutcome::Body(w) => r == Ok::<WalletInfo, String>(w),
            HttpOutcome::BadBody(m) => r matches Err(e) && e@ == "json error: "@ + m@,
            HttpOutcome::Failed(_, m) => r matches Err(e) && e@ == "request failed: "@ + m@,
        },
{
    match outcome {
        HttpOutcome::Body(w) => Ok(w),
        HttpOutcome::BadBody(m) => {
            let mut e = "json error: ".to_owned();
            e.append(m.as_str());
            Err(e)
        },
        HttpOutcome::Failed(_, m) => {
            let mut e = "request failed: ".to_owned();
            e.append(m.as_str());
            Err(e)
        },
    }
}

} // verus!
