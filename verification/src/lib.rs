//! A per-identity store of client-encrypted key material.
//!
//! Every identity owns at most one record. A record starts out empty, is
//! filled exactly once through the unauthenticated bootstrap path, and can
//! afterwards only be changed by a rotation that carries an Ed25519 signature
//! made with the signing key registered at bootstrap.

pub mod codec;
pub mod error;
pub mod identity;
pub mod laws;
pub mod record;
pub mod signature;
pub mod store;
