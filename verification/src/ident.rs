//! Unified identifier for the UBL ecosystem: a DID (who) or a CID (what).
use vstd::prelude::*;

use crate::cid::{cid_error_text, parse_cid, Cid, CidError, CidFault};
use crate::did::{did_error_text, method_can_sign, parse_did, Did, DidError, DidFault, DidMethod};
use crate::text::{chars_of, occurs_at, split, split_bounds, pieces};

verus! {

/// Why an identifier was refused.
pub enum IdentFault {
    UnknownScheme(Seq<char>),
    Did(DidFault),
    Cid(CidFault),
}

/// Ident parsing errors.
#[derive(Debug)]
pub enum IdentError {
    /// Neither `did:` nor `cid:`; holds the text before the first colon.
    UnknownScheme(String),
    /// A `did:` identifier that is not a valid DID.
    Did(DidError),
    /// A `cid:` identifier that is not a valid CID.
    Cid(CidError),
}

impl View for IdentError {
    type V = IdentFault;

    open spec fn view(&self) -> IdentFault {
        match self {
            IdentError::UnknownScheme(m) => IdentFault::UnknownScheme(m@),
            IdentError::Did(e) => IdentFault::Did(e@),
            IdentError::Cid(e) => IdentFault::Cid(e@),
        }
    }
}

/// The human-readable text of an identifier error.
pub open spec fn ident_error_text(e: IdentFault) -> Seq<char> {
    match e {
        IdentFault::UnknownScheme(m) => "unknown identifier scheme: "@ + m,
        IdentFault::Did(d) => "DID error: "@ + did_error_text(d),
        IdentFault::Cid(c) => "CID error: "@ + cid_error_text(c),
    }
}

impl IdentError {
    /// The error's message.
    pub fn to_string(&self) -> (s: String)
        ensures
            s@ == ident_error_text(self@),
    {
        match self {
            IdentError::UnknownScheme(m) => {
                let mut s = "unknown identifier scheme: ".to_owned();
                s.append(m.as_str());
                s
            },
            IdentError::Did(e) => {
                let mut s = "DID error: ".to_owned();
                let inner = e.to_string();
                s.append(inner.as_str());
                s
            },
            IdentError::Cid(e) => {
                let mut s = "CID error: ".to_owned();
                let inner = e.to_string();
                s.append(inner.as_str());
                s
            },
        }
    }
}

/// The two kinds of identifier.
pub enum IdentScheme {
    Did,
    Cid,
}

/// What parsing an identifier gives: its kind, or why it is refused.
pub open spec fn parse_ident(s: Seq<char>) -> Result<IdentScheme, IdentFault> {
    if "did:"@.is_prefix_of(s) {
        match parse_did(s) {
            Ok(_) => Ok(IdentScheme::Did),
            Err(e) => Err(IdentFault::Did(e)),
        }
    } else if "cid:"@.is_prefix_of(s) {
        match parse_cid(s) {
            Ok(_) => Ok(IdentScheme::Cid),
            Err(e) => Err(IdentFault::Cid(e)),
        }
    } else {
        Err(IdentFault::UnknownScheme(split(s, ':')[0]))
    }
}

/// A universal UBL identifier (DID or CID).
#[derive(Debug, Hash)]
pub enum Ident {
    /// A decentralized identifier (entity)
    Did(Did),
    /// A content identifier (data)
    Cid(Cid),
}

impl View for Ident {
    type V = Seq<char>;

    open spec fn view(&self) -> Seq<char> {
        match self {
            Ident::Did(d) => d@,
            Ident::Cid(c) => c@,
        }
    }
}

impl Ident {
    /// Parses any UBL identifier.
    pub fn parse(s: &str) -> (r: Result<Ident, IdentError>)
        ensures
            match r {
                Ok(id) => id@ == s@ && match id {
                    Ident::Did(d) => parse_ident(s@) is Ok && parse_ident(s@)->Ok_0 is Did
                        && parse_did(s@) == Ok::<DidMethod, DidFault>(d.spec_method()),
                    Ident::Cid(c) => parse_ident(s@) is Ok && parse_ident(s@)->Ok_0 is Cid
                        && parse_cid(s@) == Ok::<Seq<char>, CidFault>(c.spec_hash()),
                },
                Err(e) => parse_ident(s@) == Err::<IdentScheme, IdentFault>(e@),
            },
    {
        let v = chars_of(s);
        assert(v@.skip(0) =~= v@);
        if occurs_at(&v, 0, "did:") {
            match Did::parse(s) {
                Ok(d) => Ok(Ident::Did(d)),
                Err(e) => Err(IdentError::Did(e)),
            }
        } else if occurs_at(&v, 0, "cid:") {
            match Cid::parse(s) {
                Ok(c) => Ok(Ident::Cid(c)),
                Err(e) => Err(IdentError::Cid(e)),
            }
        } else {
            let b = split_bounds(&v, ':');
            proof {
                crate::text::lemma_split_nonempty(s@, ':');
            }
            let (from, to) = b[0];
            assert(pieces(v@, b@)[0] == v@.subrange(from as int, to as int));
            Err(IdentError::UnknownScheme(s.substring_char(from, to).to_owned()))
        }
    }

    /// Is this a DID?
    pub fn is_did(&self) -> (r: bool)
        ensures
            r == self is Did,
    {
        match self {
            Ident::Did(_) => true,
            _ => false,
        }
    }

    /// Is this a CID?
    pub fn is_cid(&self) -> (r: bool)
        ensures
            r == self is Cid,
    {
        match self {
            Ident::Cid(_) => true,
            _ => false,
        }
    }

    /// The DID, if this is one.
    pub fn as_did(&self) -> (r: Option<&Did>)
        ensures
            match self {
                Ident::Did(d) => r == Some(d),
                Ident::Cid(_) => r is None,
            },
    {
        match self {
            Ident::Did(d) => Some(d),
            _ => None,
        }
    }

    /// The CID, if this is one.
    pub fn as_cid(&self) -> (r: Option<&Cid>)
        ensures
            match self {
                Ident::Cid(c) => r == Some(c),
                Ident::Did(_) => r is None,
            },
    {
        match self {
            Ident::Cid(c) => Some(c),
            _ => None,
        }
    }

    /// The string form of the identifier.
    pub fn as_str(&self) -> (s: &str)
        ensures
            s@ == self@,
    {
        match self {
            Ident::Did(d) => d.as_str(),
            Ident::Cid(c) => c.as_str(),
        }
    }

    /// Can this identifier sign things? DIDs can (they have keys), CIDs
    /// cannot (they are just hashes).
    pub fn can_sign(&self) -> (r: bool)
        ensures
            r == match self {
                Ident::Did(d) => method_can_sign(d.spec_method()),
                Ident::Cid(_) => false,
            },
    {
        match self {
            Ident::Did(d) => d.can_sign(),
            Ident::Cid(_) => false,
        }
    }

    /// The identifier as an owned string (the `Display` form).
    pub fn to_string(&self) -> (s: String)
        ensures
            s@ == self@,
    {
        match self {
            Ident::Did(d) => d.to_string(),
            Ident::Cid(c) => c.to_string(),
        }
    }
}

impl Clone for Ident {
    fn clone(&self) -> (r: Ident)
        ensures
            r@ == self@,
    {
        match self {
            Ident::Did(d) => Ident::Did(d.clone()),
            Ident::Cid(c) => Ident::Cid(c.clone()),
        }
    }
}

impl PartialEq for Ident {
    fn eq(&self, other: &Ident) -> (r: bool) {
        match (self, other) {
            (Ident::Did(a), Ident::Did(b)) => a == b,
            (Ident::Cid(a), Ident::Cid(b)) => a == b,
            _ => false,
        }
    }
}

impl vstd::std_specs::cmp::PartialEqSpecImpl for Ident {
    open spec fn obeys_eq_spec() -> bool {
        true
    }

    open spec fn eq_spec(&self, other: &Ident) -> bool {
        match (self, other) {
            (Ident::Did(a), Ident::Did(b)) => a@ == b@ && a.spec_method() == b.spec_method(),
            (Ident::Cid(a), Ident::Cid(b)) => a@ == b@ && a.spec_hash() == b.spec_hash(),
            _ => false,
        }
    }
}

impl Eq for Ident {

}

impl From<Did> for Ident {
    fn from(d: Did) -> (r: Ident) {
        Ident::Did(d)
    }
}

impl vstd::std_specs::convert::FromSpecImpl<Did> for Ident {
    open spec fn obeys_from_spec() -> bool {
        true
    }

    open spec fn from_spec(d: Did) -> Ident {
        Ident::Did(d)
    }
}

impl From<Cid> for Ident {
    fn from(c: Cid) -> (r: Ident) {
        Ident::Cid(c)
    }
}

impl vstd::std_specs::convert::FromSpecImpl<Cid> for Ident {
    open spec fn obeys_from_spec() -> bool {
        true
    }

    open spec fn from_spec(c: Cid) -> Ident {
        Ident::Cid(c)
    }
}

impl std::str::FromStr for Ident {
    type Err = IdentError;

    fn from_str(s: &str) -> (r: Result<Ident, IdentError>)
        ensures
            match r {
                Ok(id) => id@ == s@ && match id {
                    Ident::Did(d) => parse_ident(s@) is Ok && parse_ident(s@)->Ok_0 is Did
                        && parse_did(s@) == Ok::<DidMethod, DidFault>(d.spec_method()),
                    Ident::Cid(c) => parse_ident(s@) is Ok && parse_ident(s@)->Ok_0 is Cid
                        && parse_cid(s@) == Ok::<Seq<char>, CidFault>(c.spec_hash()),
                },
                Err(e) => parse_ident(s@) == Err::<IdentScheme, IdentFault>(e@),
            },
    {
        Ident::parse(s)
    }
}

} // verus!
