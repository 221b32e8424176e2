use vstd::prelude::*;

verus! {

/// Why a loader stage refused an artifact.
#[derive(Debug, Clone, Copy, PartialEq, Eq, Structural)]
pub enum LoaderError {
    InvalidMagicNumber,
    InvalidFormat,
    IntegrityFailure,
    SealVerificationFailed,
    FEHMismatch,
    ProvenanceFailure,
    CapabilityUnsupported,
    AuthorityDenied,
    HandoffFailed,
}

/// The human-readable text of each error.
pub open spec fn loader_error_message(e: LoaderError) -> Seq<char> {
    match e {
        LoaderError::InvalidMagicNumber => "Invalid HACE magic number"@,
        LoaderError::InvalidFormat => "Invalid artifact format"@,
        LoaderError::IntegrityFailure => "Artifact integrity check failed"@,
        LoaderError::SealVerificationFailed => "Atrust seal verification failed"@,
        LoaderError::FEHMismatch => "FEH hash mismatch"@,
        LoaderError::ProvenanceFailure => "Provenance verification failed"@,
        LoaderError::CapabilityUnsupported => "Capability not supported by host"@,
        LoaderError::AuthorityDenied => "Hacetime authority denied"@,
        LoaderError::HandoffFailed => "Runtime handoff failed"@,
    }
}

impl LoaderError {
    /// The text that describes this error.
    pub fn message(&self) -> (s: String)
        ensures
            s@ == loader_error_message(*self),
    {
        match self {
            LoaderError::InvalidMagicNumber => String::from_str("Invalid HACE magic number"),
            LoaderError::InvalidFormat => String::from_str("Invalid artifact format"),
            LoaderError::IntegrityFailure => String::from_str("Artifact integrity check failed"),
            LoaderError::SealVerificationFailed => String::from_str("Atrust seal verification failed"),
            LoaderError::FEHMismatch => String::from_str("FEH hash mismatch"),
            LoaderError::ProvenanceFailure => String::from_str("Provenance verification failed"),
            LoaderError::CapabilityUnsupported => String::from_str("Capability not supported by host"),
            LoaderError::AuthorityDenied => String::from_str("Hacetime authority denied"),
            LoaderError::HandoffFailed => String::from_str("Runtime handoff failed"),
        }
    }
}

} // verus!
