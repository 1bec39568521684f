//! The error kinds of the engine.
use vstd::prelude::*;

verus! {

/// Every fallible operation of the engine fails with one of these kinds; each
/// carries a human-readable detail.
#[derive(Debug, Clone)]
pub enum PsyGuardError {
    /// A function fingerprint is absent from its contract's whitelist.
    CftVerificationFailed(String),
    /// An illegal transition of the session state machine.
    UpsSessionError(String),
    /// The prover collaborator failed.
    ProofGenerationFailed(String),
    /// A delta proof refuses to witness a transition.
    InvalidStateTransition(String),
    /// One of the programmable-key policy rules was violated.
    SdkeyPolicyViolation(String),
    /// The network collaborator failed.
    NetworkError(String),
    SerializationError(String),
    InvalidInput(String),
    NotFound(String),
    InternalError(String),
}

impl PsyGuardError {
    /// The detail text of the error.
    pub fn detail(&self) -> (r: &String)
        ensures
            r@ == self.detail_spec(),
    {
        match self {
            PsyGuardError::CftVerificationFailed(s) => s,
            PsyGuardError::UpsSessionError(s) => s,
            PsyGuardError::ProofGenerationFailed(s) => s,
            PsyGuardError::InvalidStateTransition(s) => s,
            PsyGuardError::SdkeyPolicyViolation(s) => s,
            PsyGuardError::NetworkError(s) => s,
            PsyGuardError::SerializationError(s) => s,
            PsyGuardError::InvalidInput(s) => s,
            PsyGuardError::NotFound(s) => s,
            PsyGuardError::InternalError(s) => s,
        }
    }

    pub open spec fn detail_spec(&self) -> Seq<char> {
        match self {
            PsyGuardError::CftVerificationFailed(s) => s@,
            PsyGuardError::UpsSessionError(s) => s@,
            PsyGuardError::ProofGenerationFailed(s) => s@,
            PsyGuardError::InvalidStateTransition(s) => s@,
            PsyGuardError::SdkeyPolicyViolation(s) => s@,
            PsyGuardError::NetworkError(s) => s@,
            PsyGuardError::SerializationError(s) => s@,
            PsyGuardError::InvalidInput(s) => s@,
            PsyGuardError::NotFound(s) => s@,
            PsyGuardError::InternalError(s) => s@,
        }
    }
}

pub type PsyResult<T> = core::result::Result<T, PsyGuardError>;

} // verus!
