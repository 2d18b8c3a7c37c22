//! A verified token-guard: a configurable policy engine that gates a value
//! exchange (a lamport payment against a token issuance) behind an ordered
//! chain of checks — liveness, amount ceiling, credential validity, solvency,
//! account freshness, a per-key usage allowance, and a membership requirement —
//! with a deterministic, lazily created allowance ledger.
//!
//! The engine itself works on plain decoded values and is verified end to end;
//! the Solana account formats and the program-derived-address computation are
//! reached through a small set of trusted declarations over `spl-token`,
//! `solana-gateway`, `mpl-token-metadata` and `solana-program`.

pub mod accounts;
pub mod config;
pub mod credential;
pub mod decode;
pub mod derive;
pub mod entry;
pub mod errors;
pub mod keys;
pub mod ledger;
pub mod membership;
pub mod policy;
pub mod token_utils;
