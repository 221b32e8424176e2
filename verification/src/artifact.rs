use vstd::prelude::*;

use crate::header::SealedHeader;
use crate::rac::RacEndpoint;

verus! {

/// Identity of a discovered artifact.
#[derive(Debug)]
pub struct ArtifactDescriptor {
    pub artifact_id: String,
    pub artifact_kind: String,
    pub version: String,
    pub source: String,
    pub format: String,
}

/// Where an artifact came from.
#[derive(Debug, Clone)]
pub enum ArtifactSource {
    RawWasm,
    SealedWasm,
    HaceArtifact,
    MemoryBuffer,
    FilePath,
}

/// The authority that a capability needs, from least to most.
#[derive(Debug, Clone, Copy, PartialEq, Eq, Structural)]
pub enum AuthorityLevel {
    User,
    UserPlus,
    Node,
    Network,
    System,
}

impl Default for AuthorityLevel {
    /// The default level is `UserPlus`.
    fn default() -> (r: Self)
        ensures
            r == AuthorityLevel::UserPlus,
    {
        AuthorityLevel::UserPlus
    }
}

/// A capability that an artifact asks for.
#[derive(Debug)]
pub struct Capability {
    pub id: String,
    pub name: String,
    pub version: String,
    pub required_authority: AuthorityLevel,
}

/// The manifest of an artifact.
#[derive(Debug)]
pub struct UniManifest {
    pub id: String,
    pub name: String,
    pub version: String,
    pub authority_binding: String,
    pub capabilities: Vec<Capability>,
    pub abi_version: String,
}

/// An ingested artifact: its descriptor, header, manifest, capabilities,
/// payload and seal.
#[derive(Debug)]
pub struct ArtifactEnvelope {
    pub descriptor: ArtifactDescriptor,
    pub header: SealedHeader,
    pub manifest: UniManifest,
    pub capabilities: Vec<Capability>,
    pub payload: Vec<u8>,
    pub seal: Vec<u8>,
}

/// An envelope whose integrity, seal and FEH hash have been checked.
pub struct VerifiedArtifact {
    pub envelope: ArtifactEnvelope,
    pub integrity_verified: bool,
    pub seal_valid: bool,
    pub feh_match: bool,
}

/// Whether the host runtime can run an artifact, and what it lacks.
pub struct RuntimeResolution {
    pub compatible: bool,
    pub runtime_adapter: String,
    pub abi_adapter: String,
    pub capability_gaps: Vec<String>,
}

/// Where a permit applies.
#[derive(Debug, Clone)]
pub struct PermitScope {
    pub host_surface: String,
    pub runtime_id: String,
    pub session_id: Option<String>,
}

/// The authority granted to run an artifact.
pub struct ExecutionPermit {
    pub permit_id: [u8; 16],
    pub artifact_hash: [u8; 32],
    pub cesi_budget: u64,
    pub granted_capabilities: Vec<String>,
    pub scope: PermitScope,
    pub expires_at: u64,
}

/// The binding of an artifact to host I/O.
pub struct HostBinding {
    pub rac_endpoint: RacEndpoint,
    pub peg_validated: bool,
    pub import_object: Vec<u8>,
}

/// A reference to a prepared instance.
pub struct InstanceHandle {
    pub instance_id: String,
    pub session_id: Option<String>,
    pub load_evidence: Option<String>,
}

/// The raw input of the loader.
pub enum ArtifactInput<'a> {
    RawWASM(&'a [u8]),
    SealedBundle(&'a [u8]),
    FilePath(&'a str),
}

impl Clone for ArtifactDescriptor {
    fn clone(&self) -> (r: Self)
        ensures
            r == *self,
    {
        ArtifactDescriptor {
            artifact_id: self.artifact_id.clone(),
            artifact_kind: self.artifact_kind.clone(),
            version: self.version.clone(),
            source: self.source.clone(),
            format: self.format.clone(),
        }
    }
}

impl Clone for Capability {
    fn clone(&self) -> (r: Self)
        ensures
            r == *self,
    {
        Capability {
            id: self.id.clone(),
            name: self.name.clone(),
            version: self.version.clone(),
            required_authority: self.required_authority,
        }
    }
}

/// A copy of a list of capabilities, element by element.
fn copy_capabilities(caps: &Vec<Capability>) -> (r: Vec<Capability>)
    ensures
        r@ == caps@,
{
    let r = caps.clone();
    assert(r@ =~= caps@);
    r
}

impl UniManifest {
    /// `self` and `other` hold the same manifest.
    pub open spec fn same_as(self, other: UniManifest) -> bool {
        &&& self.id == other.id
        &&& self.name == other.name
        &&& self.version == other.version
        &&& self.authority_binding == other.authority_binding
        &&& self.capabilities@ == other.capabilities@
        &&& self.abi_version == other.abi_version
    }

    /// The manifest with no fields set and no capabilities.
    pub open spec fn is_blank(self) -> bool {
        &&& self.id@.len() == 0
        &&& self.name@.len() == 0
        &&& self.version@.len() == 0
        &&& self.authority_binding@.len() == 0
        &&& self.capabilities@.len() == 0
        &&& self.abi_version@.len() == 0
    }
}

impl Clone for UniManifest {
    fn clone(&self) -> (r: Self)
        ensures
            r.same_as(*self),
    {
        UniManifest {
            id: self.id.clone(),
            name: self.name.clone(),
            version: self.version.clone(),
            authority_binding: self.authority_binding.clone(),
            capabilities: copy_capabilities(&self.capabilities),
            abi_version: self.abi_version.clone(),
        }
    }
}

impl ArtifactEnvelope {
    /// `self` and `other` hold the same envelope.
    pub open spec fn same_as(self, other: ArtifactEnvelope) -> bool {
        &&& self.descriptor == other.descriptor
        &&& self.header == other.header
        &&& self.manifest.same_as(other.manifest)
        &&& self.capabilities@ == other.capabilities@
        &&& self.payload@ == other.payload@
        &&& self.seal@ == other.seal@
    }
}

impl Clone for ArtifactEnvelope {
    fn clone(&self) -> (r: Self)
        ensures
            r.same_as(*self),
    {
        let payload = self.payload.clone();
        let seal = self.seal.clone();
        assert(payload@ =~= self.payload@);
        assert(seal@ =~= self.seal@);
        ArtifactEnvelope {
            descriptor: self.descriptor.clone(),
            header: self.header,
            manifest: self.manifest.clone(),
            capabilities: copy_capabilities(&self.capabilities),
            payload,
            seal,
        }
    }
}

impl ExecutionPermit {
    /// A permit for `id` and `hash` with budget `cesi` and capabilities `caps`,
    /// scoped to an unknown host surface and the default runtime, with no
    /// session and no expiry.
    pub fn granted(id: [u8; 16], hash: [u8; 32], cesi: u64, caps: Vec<String>) -> (p: Self)
        ensures
            p.permit_id == id,
            p.artifact_hash == hash,
            p.cesi_budget == cesi,
            p.granted_capabilities == caps,
            p.scope.host_surface@ == "unknown"@,
            p.scope.runtime_id@ == "default"@,
            p.scope.session_id is None,
            p.expires_at == 0,
    {
        ExecutionPermit {
            permit_id: id,
            artifact_hash: hash,
            cesi_budget: cesi,
            granted_capabilities: caps,
            scope: PermitScope {
                host_surface: String::from_str("unknown"),
                runtime_id: String::from_str("default"),
                session_id: None,
            },
            expires_at: 0,
        }
    }
}

} // verus!
