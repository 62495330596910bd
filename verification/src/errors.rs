//! The error taxonomy of the bridge.  Every check in the pipeline fails with
//! exactly one of these values; all of them abort the whole submission.

use vstd::prelude::*;

verus! {

/// Reasons for which a submission is rejected.
#[derive(Clone, Copy, Debug, PartialEq, Eq, Structural)]
pub enum MessengerError {
    /// The payload is too short for the fields its tag demands.
    MalformedPayload,
    /// The supplied attestation account is not at the recomputed address.
    VAAKeyMismatch,
    /// The attestation's origin chain or address is not the registered emitter.
    VAAEmitterMismatch,
    /// The payload's tag is not the one this entry point consumes.
    InvalidPayload,
    /// A staged field or the claimed sequence count does not match.
    InvalidDataProvided,
    /// A registered emitter address has the wrong form.
    InvalidEmitterAddress,
    /// The supplied sender identity does not match the payload.
    PdaSenderMismatch,
    /// The supplied receiver identity does not match the payload.
    PdaReceiverMismatch,
    /// The supplied sender authority is not the derived identity.
    SenderDerivedKeyMismatch,
    /// The supplied receiver authority is not the derived identity.
    ReceiverDerivedKeyMismatch,
    /// No supplied account matches the derived signing identity.
    InvalidPDASigner,
    /// The supplied account for a staged initialization is not the derived one.
    InvalidPDAAccount,
    /// An initialization names a destination chain other than this one.
    InvalidToChainId,
    /// A staged transaction was already consumed.
    AlreadyExecuted,
    /// A counter cannot be incremented without wrapping.
    Overflow,
    /// The supplied token mint is not the one the payload names.
    MintKeyMismatch,
    /// The supplied stream data account is not the one the payload names.
    DataAccountMismatch,
    /// The caller is not the configured bridge owner.
    InvalidCaller,
}

} // verus!
