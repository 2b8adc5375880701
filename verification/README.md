# ubl_id

Identity primitives of the Universal Business Ledger, verified with Verus:
DIDs (`did:ubl:*`, `did:key:*`, `did:web:*`), CIDs (`cid:blake3:*`),
ephemeral Ed25519 wallets and proof-of-possession (`X-UBL-POW`) headers.

Layout:

- `src/` — the verified library.
  - `text` — character sequences, `split`/`splitn` and their executable counterparts
  - `encoding`, `crypto` — the calls into `base64`, `bs58`, `json_atomic`,
    `blake3`, `ed25519-dalek`, `rand` and `time`, with the contracts relied on
  - `did`, `cid`, `ident` — identifier parsing and construction
  - `wallet`, `pop` — signing and verifying PoP headers
  - `resolve` — Directory URLs and what its responses mean
- `app/` — serde forms of the types, reading PoP payload JSON, wallet export,
  `Display` error types and the HTTP exchanges with a Directory (`ureq`).
- `tests/` — tests of the library.
