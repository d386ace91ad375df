//! Delegated execution of sub-instructions through a DID-controlled identity
//! account: a compact index-based instruction codec, account index resolution,
//! authority checks, identity derivation and the transaction lifecycle.

pub mod key;
pub mod error;
pub mod codec;
pub mod accounts;
pub mod identity;
pub mod execution;
pub mod transaction;
pub mod builder;
