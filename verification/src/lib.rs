//! Offline, read-only analysis of Partially Signed Bitcoin Transactions
//! (PSBT, BIP 174) against a user-declared payment intent.
//!
//! The library never handles private keys, never signs, never broadcasts and
//! performs no network requests. Its findings are advisory review guidance for
//! a human signer, never a guarantee of safety.

pub mod bitcoin_api;
pub mod catalogue;
pub mod intent;
pub mod laws;
pub mod model;
pub mod parse;
pub mod render;
pub mod report;
pub mod facts;
pub mod rules;
pub mod text;
