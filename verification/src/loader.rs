use vstd::prelude::*;

use crate::artifact::{
    ArtifactDescriptor, ArtifactEnvelope, ArtifactInput, ExecutionPermit, RuntimeResolution,
    VerifiedArtifact,
};
use crate::error::LoaderError;

verus! {

/// The host side of a load: what the loader binds host I/O to.
pub trait HostContext: core::fmt::Debug {}

/// The runtime side of a load: what the loader hands the instance to.
pub trait RuntimeContext: core::fmt::Debug {}

/// The seven stages of artifact loading, in order: discover, ingest, verify,
/// resolve, authorize, bind, hand off. Each stage takes what the earlier ones
/// produced.
pub trait HaceUniLoader {
    type HostCtx: HostContext;
    type RuntimeCtx: RuntimeContext;
    type Binding;
    type InstHandle;

    /// Stage 1: identify the artifact.
    fn discover(input: ArtifactInput<'_>) -> Result<ArtifactDescriptor, LoaderError>;

    /// Stage 2: read the artifact into an envelope that keeps its seal.
    fn ingest<'a>(input: ArtifactInput<'a>) -> Result<ArtifactEnvelope, LoaderError>;

    /// Stage 3: check integrity, seal and FEH hash.
    fn verify(envelope: &ArtifactEnvelope) -> Result<VerifiedArtifact, LoaderError>;

    /// Stage 4: check the artifact against the host and the runtime.
    fn resolve(
        artifact: &VerifiedArtifact,
        host: &Self::HostCtx,
        runtime: &Self::RuntimeCtx,
    ) -> Result<RuntimeResolution, LoaderError>;

    /// Stage 5: ask Hacetime for an execution permit.
    fn request_authority(
        artifact: &VerifiedArtifact,
        resolution: &RuntimeResolution,
    ) -> Result<ExecutionPermit, LoaderError>;

    /// Stage 6: bind host I/O under the permit.
    fn bind(artifact: &VerifiedArtifact, permit: &ExecutionPermit, host: Self::HostCtx) -> Result<
        Self::Binding,
        LoaderError,
    >;

    /// Stage 7: hand the bound artifact to the runtime.
    fn handoff(binding: Self::Binding, runtime: Self::RuntimeCtx) -> Result<
        Self::InstHandle,
        LoaderError,
    >;
}

impl HostContext for () {}

impl RuntimeContext for () {}

/// The loader of a native host, which has no runtime to load into: every
/// stage refuses.
pub struct NativeLoader;

impl HaceUniLoader for NativeLoader {
    type HostCtx = ();
    type RuntimeCtx = ();
    type Binding = ();
    type InstHandle = ();

    fn discover(_input: ArtifactInput<'_>) -> (r: Result<ArtifactDescriptor, LoaderError>)
        ensures
            r matches Err(LoaderError::InvalidFormat),
    {
        Err(LoaderError::InvalidFormat)
    }

    fn ingest<'a>(_input: ArtifactInput<'a>) -> (r: Result<ArtifactEnvelope, LoaderError>)
        ensures
            r matches Err(LoaderError::InvalidFormat),
    {
        Err(LoaderError::InvalidFormat)
    }

    fn verify(_envelope: &ArtifactEnvelope) -> (r: Result<VerifiedArtifact, LoaderError>)
        ensures
            r matches Err(LoaderError::IntegrityFailure),
    {
        Err(LoaderError::IntegrityFailure)
    }

    fn resolve(_artifact: &VerifiedArtifact, _host: &(), _runtime: &()) -> (r: Result<
        RuntimeResolution,
        LoaderError,
    >)
        ensures
            r matches Err(LoaderError::CapabilityUnsupported),
    {
        Err(LoaderError::CapabilityUnsupported)
    }

    fn request_authority(_artifact: &VerifiedArtifact, _resolution: &RuntimeResolution) -> (r:
        Result<ExecutionPermit, LoaderError>)
        ensures
            r matches Err(LoaderError::AuthorityDenied),
    {
        Err(LoaderError::AuthorityDenied)
    }

    fn bind(_artifact: &VerifiedArtifact, _permit: &ExecutionPermit, _host: ()) -> (r: Result<
        (),
        LoaderError,
    >)
        ensures
            r matches Err(LoaderError::CapabilityUnsupported),
    {
        Err(LoaderError::CapabilityUnsupported)
    }

    fn handoff(_binding: (), _runtime: ()) -> (r: Result<(), LoaderError>)
        ensures
            r matches Err(LoaderError::HandoffFailed),
    {
        Err(LoaderError::HandoffFailed)
    }
}

} // verus!
