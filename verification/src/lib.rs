//! # ubl-id — Universal Business Ledger identity primitives
//!
//! The identity kernel for the UBL ecosystem:
//! - **DIDs** (`did:ubl:*`, `did:key:*`, `did:web:*`) for entities (users,
//!   orgs, agents, apps, wallets)
//! - **CIDs** (`cid:blake3:*`) for content-addressed data
//! - **Wallets**: ephemeral Ed25519 keys that sign proof-of-possession
//!   (PoP) headers
//!
//! Content is hashed in the canonical JSON form of [`json_atomic`], so that
//! identical content gives identical bytes, hash and CID everywhere.
pub mod text;
pub mod encoding;
pub mod crypto;
pub mod did;
pub mod cid;
pub mod wallet;
pub mod pop;
pub mod ident;
pub mod resolve;

pub use did::{Did, DidMethod, DidType};
pub use cid::Cid;
pub use wallet::Wallet;
pub use pop::{build_pop_header, verify_pop, Pop, PopError, PopPayloadV1};
pub use ident::Ident;

/// Canonical JSON serialization, for downstream use.
pub use json_atomic;
