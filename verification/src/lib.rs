//! Verified settlement logic for a cross-chain token-streaming bridge.
//!
//! The crate receives attested cross-chain messages, re-derives and checks
//! the address at which an attestation must be stored, verifies the claimed
//! origin against a registered emitter, decodes a tagged fixed-offset binary
//! payload into a typed operation, enforces per-operation authorization
//! through derived identities, and guards two-phase operations against
//! replay.

pub mod attestation;
pub mod bytes;
pub mod codec;
pub mod counter;
pub mod crypto;
pub mod dispatcher;
pub mod errors;
pub mod intent;
pub mod registry;
pub mod staged;
