//! Ed25519 keypair derivation, signing, verification and point checks over
//! host byte buffers, with every argument size checked before the signature
//! scheme is called and every failure reported as a closed set of reasons.

pub mod buffer;
pub mod ed25519;
pub mod laws;
pub mod ops;
pub mod reason;
