pub mod artifact;
pub mod error;
pub mod header;
pub mod history;
pub mod loader;
pub mod pipeline;
pub mod rac;

pub use artifact::{
    ArtifactDescriptor, ArtifactEnvelope, ArtifactInput, ArtifactSource, AuthorityLevel,
    Capability, ExecutionPermit, HostBinding, InstanceHandle, PermitScope, RuntimeResolution,
    UniManifest, VerifiedArtifact,
};
pub use error::LoaderError;
pub use header::{SealedHeader, HACE_MAGIC, SEALED_HEADER_LEN};
pub use rac::{RacEndpoint, RacProtocol, TransportKind};
pub use loader::{HaceUniLoader, HostContext, NativeLoader, RuntimeContext};
pub use pipeline::{AuthorityAnswer, AuthorityRequest, PipelineError, UniLoader, WasmHostContext, WasmInstanceHandle, WasmRuntimeContext};
pub use history::Stage;
