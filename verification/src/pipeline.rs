use vstd::prelude::*;

use crate::artifact::{
    ArtifactDescriptor, ArtifactEnvelope, ArtifactInput, ExecutionPermit, HostBinding,
    RuntimeResolution, UniManifest, VerifiedArtifact,
};
use crate::error::{loader_error_message, LoaderError};
use crate::header::{
    decodes, has_magic, long_enough, payload_bytes, seal_bytes, sections_in_bounds, SealedHeader,
};
use crate::history::{
    completed_through, contains_in_order, lemma_completed_pipeline, lemma_next_step,
    lemma_push_keeps_order, pipeline_order, Stage,
};
use crate::loader::{HostContext, RuntimeContext};
use crate::rac::{endpoint_for_transport, RacEndpoint, TransportKind};

verus! {

/// The host of a browser load: where Hacetime is reached and which surface
/// the artifact sees.
#[derive(Debug, Clone)]
pub struct WasmHostContext {
    pub rac_endpoint: RacEndpoint,
    pub host_surface: String,
}

/// The runtime of a browser load.
#[derive(Debug, Clone)]
pub struct WasmRuntimeContext {
    pub runtime_id: String,
    pub adapter: String,
}

/// What a completed browser load hands back.
#[derive(Debug, Clone)]
pub struct WasmInstanceHandle {
    pub instance_id: String,
    pub load_evidence: Option<String>,
}

impl HostContext for WasmHostContext {}

impl RuntimeContext for WasmRuntimeContext {}

impl WasmHostContext {
    /// A host context whose endpoint is chosen from the host's primary
    /// transport, on the `auto_detected` surface.
    pub fn auto(primary_transport: TransportKind) -> (c: Self)
        ensures
            endpoint_for_transport(primary_transport, c.rac_endpoint),
            c.host_surface@ == "auto_detected"@,
    {
        WasmHostContext {
            rac_endpoint: RacEndpoint::auto_detect(primary_transport),
            host_surface: String::from_str("auto_detected"),
        }
    }
}

/// Why a step of the browser pipeline did not run or failed.
#[derive(Debug, Clone, Copy, PartialEq, Eq, Structural)]
pub enum PipelineError {
    /// The stage ran and refused.
    Failed(LoaderError),
    /// `ingest` was asked before the artifact was discovered.
    NoDescriptor,
    /// `verify` was asked before any envelope was ingested.
    NoEnvelope,
    /// A stage that needs a verified artifact was asked before one existed.
    NoVerifiedArtifact,
    /// Authority was asked for before the runtime was resolved.
    NoResolution,
    /// An answer from Hacetime came with no request outstanding.
    NoRequest,
    /// `bind` was asked before a permit was granted.
    NoPermit,
    /// `handoff` was asked with no binding prepared.
    NoBinding,
}

/// The text of each pipeline error.
pub open spec fn pipeline_error_message(e: PipelineError) -> Seq<char> {
    match e {
        PipelineError::Failed(inner) => loader_error_message(inner),
        PipelineError::NoDescriptor => "No artifact discovered"@,
        PipelineError::NoEnvelope => "No envelope ingested"@,
        PipelineError::NoVerifiedArtifact => "No verified artifact"@,
        PipelineError::NoResolution => "No runtime resolution"@,
        PipelineError::NoRequest => "No authority requested"@,
        PipelineError::NoPermit => "No execution permit"@,
        PipelineError::NoBinding => "No binding prepared"@,
    }
}

impl PipelineError {
    /// The text that describes this error.
    pub fn message(&self) -> (s: String)
        ensures
            s@ == pipeline_error_message(*self),
    {
        match self {
            PipelineError::Failed(inner) => inner.message(),
            PipelineError::NoDescriptor => String::from_str("No artifact discovered"),
            PipelineError::NoEnvelope => String::from_str("No envelope ingested"),
            PipelineError::NoVerifiedArtifact => String::from_str("No verified artifact"),
            PipelineError::NoResolution => String::from_str("No runtime resolution"),
            PipelineError::NoRequest => String::from_str("No authority requested"),
            PipelineError::NoPermit => String::from_str("No execution permit"),
            PipelineError::NoBinding => String::from_str("No binding prepared"),
        }
    }
}

/// What the loader sends Hacetime when it asks for authority to run an
/// artifact: the artifact's FEH hash and the CESI budget asked for.
#[derive(Debug, Clone, Copy)]
pub struct AuthorityRequest {
    pub artifact_hash: [u8; 32],
    pub cesi_budget: u64,
}

/// Hacetime's answer to an `AuthorityRequest`.
pub enum AuthorityAnswer {
    /// Hacetime grants this permit.
    Granted(ExecutionPermit),
    /// Hacetime refuses.
    Denied,
}

/// The descriptor that discovery gives a buffer: a `wasm` artifact named
/// `discovered`, version `1.0`, from a `buffer`.
pub open spec fn is_discovered_descriptor(d: ArtifactDescriptor) -> bool {
    &&& d.artifact_id@ == "discovered"@
    &&& d.artifact_kind@ == "wasm"@
    &&& d.version@ == "1.0"@
    &&& d.source@ == "buffer"@
    &&& d.format@ == "wasm"@
}

/// `env` is the envelope that ingesting the raw bytes `data` gives: the
/// discovered descriptor, the header decoded from `data`, the payload and the
/// seal that the header names, a blank manifest and no capabilities.
pub open spec fn is_ingested_envelope(env: ArtifactEnvelope, data: Seq<u8>) -> bool {
    &&& is_discovered_descriptor(env.descriptor)
    &&& decodes(env.header, data)
    &&& env.payload@ == payload_bytes(data)
    &&& env.seal@ == seal_bytes(data)
    &&& env.manifest.is_blank()
    &&& env.capabilities@.len() == 0
}

/// What ingesting the raw bytes `data` gives: refusal of a short input, of a
/// wrong magic, and of a payload or seal that runs past the input.
pub open spec fn ingest_raw_outcome(data: Seq<u8>, r: Result<ArtifactEnvelope, LoaderError>) -> bool {
    if !long_enough(data) {
        r == Err::<ArtifactEnvelope, LoaderError>(LoaderError::InvalidFormat)
    } else if !has_magic(data) {
        r == Err::<ArtifactEnvelope, LoaderError>(LoaderError::InvalidMagicNumber)
    } else if !sections_in_bounds(data) {
        r == Err::<ArtifactEnvelope, LoaderError>(LoaderError::InvalidFormat)
    } else {
        r matches Ok(env) && is_ingested_envelope(env, data)
    }
}

/// Raw bytes that ingestion accepts.
pub open spec fn ingestible(data: Seq<u8>) -> bool {
    long_enough(data) && has_magic(data) && sections_in_bounds(data)
}

/// `v` is `env` with its integrity, seal and FEH hash all found good.
pub open spec fn is_verified_copy(v: VerifiedArtifact, env: ArtifactEnvelope) -> bool {
    &&& v.envelope.same_as(env)
    &&& v.integrity_verified
    &&& v.seal_valid
    &&& v.feh_match
}

/// The error that verification of `env` gives for the outcomes of the
/// integrity check, of the seal check and of the FEH computation, checked in
/// that order; `None` when all three are good.
pub open spec fn verification_failure(
    env: ArtifactEnvelope,
    integrity_ok: bool,
    seal_ok: bool,
    computed_feh: Seq<u8>,
) -> Option<LoaderError> {
    if !integrity_ok {
        Some(LoaderError::IntegrityFailure)
    } else if !seal_ok {
        Some(LoaderError::SealVerificationFailed)
    } else if computed_feh != env.header.feh_hash@ {
        Some(LoaderError::FEHMismatch)
    } else {
        None
    }
}

/// The resolution of a browser runtime: compatible, through the `wasm`
/// adapter and ABI `1.0`, with no capability gaps.
pub open spec fn is_browser_resolution(r: RuntimeResolution) -> bool {
    &&& r.compatible
    &&& r.runtime_adapter@ == "wasm"@
    &&& r.abi_adapter@ == "1.0"@
    &&& r.capability_gaps@.len() == 0
}

/// The binding made for `host`: its endpoint, PEG validated, no imports.
pub open spec fn is_browser_binding(b: HostBinding, host: WasmHostContext) -> bool {
    &&& b.rac_endpoint == host.rac_endpoint
    &&& b.peg_validated
    &&& b.import_object@.len() == 0
}

/// The handle of a completed handoff.
pub open spec fn is_handoff_handle(h: WasmInstanceHandle) -> bool {
    &&& h.instance_id@ == "handoff_complete"@
    &&& h.load_evidence is None
}

/// Whether two hashes hold the same bytes.
fn same_hash(a: &[u8; 32], b: &[u8; 32]) -> (r: bool)
    ensures
        r == (a@ == b@),
{
    let mut i: usize = 0;
    while i < 32
        invariant
            i <= 32,
            a@.len() == 32,
            b@.len() == 32,
            forall|j: int| 0 <= j < i ==> a@[j] == b@[j],
        decreases 32 - i,
    {
        if a[i] != b[i] {
            return false;
        }
        i = i + 1;
    }
    assert(a@ =~= b@);
    true
}

/// A copy of the bytes of `data` from `start` up to `end`.
fn copy_range(data: &[u8], start: usize, end: usize) -> (r: Vec<u8>)
    requires
        start <= end <= data@.len(),
    ensures
        r@ == data@.subrange(start as int, end as int),
{
    let mut r: Vec<u8> = Vec::new();
    let mut i: usize = start;
    while i < end
        invariant
            start <= i <= end <= data@.len(),
            r@ == data@.subrange(start as int, i as int),
        decreases end - i,
    {
        r.push(data[i]);
        i = i + 1;
        assert(r@ =~= data@.subrange(start as int, i as int));
    }
    r
}

/// The browser loader. It keeps what each stage produced, and the history of
/// the stages that completed, and runs a stage only when the stages that it
/// needs have completed before it.
pub struct UniLoader {
    descriptor: Option<ArtifactDescriptor>,
    envelope: Option<ArtifactEnvelope>,
    verified: Option<VerifiedArtifact>,
    resolution: Option<RuntimeResolution>,
    request: Option<AuthorityRequest>,
    permit: Option<ExecutionPermit>,
    binding: Option<HostBinding>,
    log: Ghost<Seq<Stage>>,
}

impl UniLoader {
    /// What discovery produced.
    pub closed spec fn descriptor_stage(&self) -> Option<ArtifactDescriptor> {
        self.descriptor
    }

    /// What ingestion produced.
    pub closed spec fn envelope_stage(&self) -> Option<ArtifactEnvelope> {
        self.envelope
    }

    /// What verification produced.
    pub closed spec fn verified_stage(&self) -> Option<VerifiedArtifact> {
        self.verified
    }

    /// What resolution produced.
    pub closed spec fn resolution_stage(&self) -> Option<RuntimeResolution> {
        self.resolution
    }

    /// The request for authority that Hacetime has not answered yet.
    pub closed spec fn request_stage(&self) -> Option<AuthorityRequest> {
        self.request
    }

    /// The permit that Hacetime granted.
    pub closed spec fn permit_stage(&self) -> Option<ExecutionPermit> {
        self.permit
    }

    /// What binding produced and handoff has not consumed yet.
    pub closed spec fn binding_stage(&self) -> Option<HostBinding> {
        self.binding
    }

    /// The stages that completed successfully, in the order they completed.
    pub closed spec fn history(&self) -> Seq<Stage> {
        self.log@
    }

    /// Each stage's output exists only where the outputs it was made from
    /// exist, and only after the stages of the pipeline up to it completed in
    /// order: a descriptor after DISCOVER; an envelope after DISCOVER, INGEST;
    /// and so on up to a binding, after DISCOVER, INGEST, VERIFY, RESOLVE, the
    /// request for authority, Hacetime's grant, BIND. Every loader keeps this.
    #[verifier::type_invariant]
    pub open spec fn stages_ordered(&self) -> bool {
        &&& self.descriptor_stage() is Some ==> contains_in_order(
            self.history(),
            completed_through(1),
        )
        &&& self.envelope_stage() is Some ==> self.descriptor_stage() is Some && contains_in_order(
            self.history(),
            completed_through(2),
        )
        &&& self.verified_stage() is Some ==> self.envelope_stage() is Some && contains_in_order(
            self.history(),
            completed_through(3),
        )
        &&& self.resolution_stage() is Some ==> self.verified_stage() is Some && contains_in_order(
            self.history(),
            completed_through(4),
        )
        &&& self.request_stage() is Some ==> self.resolution_stage() is Some && contains_in_order(
            self.history(),
            completed_through(5),
        )
        &&& self.permit_stage() is Some ==> self.resolution_stage() is Some && contains_in_order(
            self.history(),
            completed_through(6),
        )
        &&& self.binding_stage() is Some ==> self.permit_stage() is Some && contains_in_order(
            self.history(),
            completed_through(7),
        )
    }

    /// A loader in which no stage has run.
    pub fn new() -> (l: Self)
        ensures
            l.descriptor_stage() is None,
            l.envelope_stage() is None,
            l.verified_stage() is None,
            l.resolution_stage() is None,
            l.request_stage() is None,
            l.permit_stage() is None,
            l.binding_stage() is None,
            l.history() == Seq::<Stage>::empty(),
    {
        UniLoader {
            descriptor: None,
            envelope: None,
            verified: None,
            resolution: None,
            request: None,
            permit: None,
            binding: None,
            log: Ghost(Seq::empty()),
        }
    }

    /// Stage 1: records the descriptor of `input`.
    pub fn discover(&mut self, input: &[u8]) -> (r: Result<(), PipelineError>)
        ensures
            r is Ok,
            final(self).descriptor_stage() matches Some(d) && is_discovered_descriptor(d),
            final(self).history() == old(self).history().push(Stage::Discover),
            final(self).envelope_stage() == old(self).envelope_stage(),
            final(self).verified_stage() == old(self).verified_stage(),
            final(self).resolution_stage() == old(self).resolution_stage(),
            final(self).request_stage() == old(self).request_stage(),
            final(self).permit_stage() == old(self).permit_stage(),
            final(self).binding_stage() == old(self).binding_stage(),
    {
        proof {
            use_type_invariant(&*self);
        }
        match Self::discover_impl(ArtifactInput::RawWASM(input)) {
            Ok(desc) => {
                proof {
                    lemma_next_step(self.log@, 0);
                }
                self.log = Ghost(self.log@.push(Stage::Discover));
                self.descriptor = Some(desc);
                Ok(())
            },
            Err(e) => Err(PipelineError::Failed(e)),
        }
    }

    /// Stage 2: ingests the raw bytes `input` and records the envelope. It
    /// fails with `NoDescriptor` before discovery; when ingestion refuses,
    /// nothing changes.
    pub fn ingest(&mut self, input: &[u8]) -> (r: Result<(), PipelineError>)
        ensures
            old(self).descriptor_stage() is None ==> r == Err::<(), PipelineError>(
                PipelineError::NoDescriptor,
            ),
            old(self).descriptor_stage() is Some ==> {
                &&& !long_enough(input@) ==> r == Err::<(), PipelineError>(
                    PipelineError::Failed(LoaderError::InvalidFormat),
                )
                &&& long_enough(input@) && !has_magic(input@) ==> r == Err::<(), PipelineError>(
                    PipelineError::Failed(LoaderError::InvalidMagicNumber),
                )
                &&& long_enough(input@) && has_magic(input@) && !sections_in_bounds(input@) ==> r
                    == Err::<(), PipelineError>(PipelineError::Failed(LoaderError::InvalidFormat))
            },
            r is Ok <==> old(self).descriptor_stage() is Some && ingestible(input@),
            r is Ok ==> (final(self).envelope_stage() matches Some(env) && is_ingested_envelope(
                env,
                input@,
            )),
            r is Ok ==> final(self).history() == old(self).history().push(Stage::Ingest),
            r is Err ==> final(self).envelope_stage() == old(self).envelope_stage()
                && final(self).history() == old(self).history(),
            final(self).descriptor_stage() == old(self).descriptor_stage(),
            final(self).verified_stage() == old(self).verified_stage(),
            final(self).resolution_stage() == old(self).resolution_stage(),
            final(self).request_stage() == old(self).request_stage(),
            final(self).permit_stage() == old(self).permit_stage(),
            final(self).binding_stage() == old(self).binding_stage(),
    {
        proof {
            use_type_invariant(&*self);
        }
        if self.descriptor.is_none() {
            return Err(PipelineError::NoDescriptor);
        }
        match Self::ingest_impl(ArtifactInput::RawWASM(input)) {
            Ok(env) => {
                proof {
                    lemma_next_step(self.log@, 1);
                }
                self.log = Ghost(self.log@.push(Stage::Ingest));
                self.envelope = Some(env);
                Ok(())
            },
            Err(e) => Err(PipelineError::Failed(e)),
        }
    }

    /// Stage 3: verifies the ingested envelope against the outcomes of its
    /// integrity check, of its seal check and of the FEH hash computed over
    /// it, and records the verified artifact when all three are good. It fails
    /// with `NoEnvelope` before ingestion, and with the failed check's error
    /// otherwise; when it fails, nothing changes.
    pub fn verify(&mut self, integrity_ok: bool, seal_ok: bool, computed_feh: [u8; 32]) -> (r:
        Result<(), PipelineError>)
        ensures
            old(self).envelope_stage() is None ==> r == Err::<(), PipelineError>(
                PipelineError::NoEnvelope,
            ),
            old(self).envelope_stage() matches Some(env) ==> match verification_failure(
                env,
                integrity_ok,
                seal_ok,
                computed_feh@,
            ) {
                Some(e) => r == Err::<(), PipelineError>(PipelineError::Failed(e)),
                None => r is Ok && (final(self).verified_stage() matches Some(v)
                    && is_verified_copy(v, env)),
            },
            r is Ok ==> final(self).history() == old(self).history().push(Stage::Verify),
            r is Err ==> final(self).verified_stage() == old(self).verified_stage()
                && final(self).history() == old(self).history(),
            final(self).descriptor_stage() == old(self).descriptor_stage(),
            final(self).envelope_stage() == old(self).envelope_stage(),
            final(self).resolution_stage() == old(self).resolution_stage(),
            final(self).request_stage() == old(self).request_stage(),
            final(self).permit_stage() == old(self).permit_stage(),
            final(self).binding_stage() == old(self).binding_stage(),
    {
        proof {
            use_type_invariant(&*self);
        }
        let verified = match &self.envelope {
            None => {
                return Err(PipelineError::NoEnvelope);
            },
            Some(envelope) => Self::verify_impl(envelope, integrity_ok, seal_ok, computed_feh),
        };
        match verified {
            Ok(v) => {
                proof {
                    lemma_next_step(self.log@, 2);
                }
                self.log = Ghost(self.log@.push(Stage::Verify));
                self.verified = Some(v);
                Ok(())
            },
            Err(e) => Err(PipelineError::Failed(e)),
        }
    }

    /// Stage 4: resolves the verified artifact against `host` and `runtime`
    /// and records the resolution; fails with `NoVerifiedArtifact`, changing
    /// nothing, when nothing was verified.
    pub fn resolve(&mut self, host: &WasmHostContext, runtime: &WasmRuntimeContext) -> (r: Result<
        (),
        PipelineError,
    >)
        ensures
            old(self).verified_stage() is None ==> r == Err::<(), PipelineError>(
                PipelineError::NoVerifiedArtifact,
            ),
            old(self).verified_stage() is Some ==> r is Ok && (final(self).resolution_stage() matches Some(res) && is_browser_resolution(res)),
            r is Ok ==> final(self).history() == old(self).history().push(Stage::Resolve),
            r is Err ==> final(self).resolution_stage() == old(self).resolution_stage()
                && final(self).history() == old(self).history(),
            final(self).descriptor_stage() == old(self).descriptor_stage(),
            final(self).envelope_stage() == old(self).envelope_stage(),
            final(self).verified_stage() == old(self).verified_stage(),
            final(self).request_stage() == old(self).request_stage(),
            final(self).permit_stage() == old(self).permit_stage(),
            final(self).binding_stage() == old(self).binding_stage(),
    {
        proof {
            use_type_invariant(&*self);
        }
        let resolved = match &self.verified {
            None => {
                return Err(PipelineError::NoVerifiedArtifact);
            },
            Some(artifact) => Self::resolve_impl(artifact, host, runtime),
        };
        match resolved {
            Ok(res) => {
                proof {
                    lemma_next_step(self.log@, 3);
                }
                self.log = Ghost(self.log@.push(Stage::Resolve));
                self.resolution = Some(res);
                Ok(())
            },
            Err(e) => Err(PipelineError::Failed(e)),
        }
    }

    /// Stage 5, first half: the request for authority to run the verified and
    /// resolved artifact with budget `cesi`, to be sent to Hacetime. The
    /// loader keeps the request until Hacetime answers and grants nothing
    /// itself. It fails, changing nothing, with `NoVerifiedArtifact` when
    /// nothing was verified and otherwise with `NoResolution` when nothing was
    /// resolved.
    pub fn request_authority(&mut self, cesi: u64) -> (r: Result<AuthorityRequest, PipelineError>)
        ensures
            old(self).verified_stage() is None ==> r == Err::<AuthorityRequest, PipelineError>(
                PipelineError::NoVerifiedArtifact,
            ),
            old(self).verified_stage() is Some && old(self).resolution_stage() is None ==> r
                == Err::<AuthorityRequest, PipelineError>(PipelineError::NoResolution),
            old(self).verified_stage() matches Some(v) ==> (old(self).resolution_stage() is Some ==> (
            r matches Ok(req) && req.artifact_hash == v.envelope.header.feh_hash && req.cesi_budget
                == cesi && final(self).request_stage() == Some(req))),
            r is Ok ==> final(self).history() == old(self).history().push(
                Stage::RequestAuthority,
            ),
            r is Err ==> final(self).request_stage() == old(self).request_stage()
                && final(self).history() == old(self).history(),
            final(self).descriptor_stage() == old(self).descriptor_stage(),
            final(self).envelope_stage() == old(self).envelope_stage(),
            final(self).verified_stage() == old(self).verified_stage(),
            final(self).resolution_stage() == old(self).resolution_stage(),
            final(self).permit_stage() == old(self).permit_stage(),
            final(self).binding_stage() == old(self).binding_stage(),
    {
        proof {
            use_type_invariant(&*self);
        }
        let req = match &self.verified {
            None => {
                return Err(PipelineError::NoVerifiedArtifact);
            },
            Some(artifact) => match &self.resolution {
                None => {
                    return Err(PipelineError::NoResolution);
                },
                Some(_) => AuthorityRequest {
                    artifact_hash: artifact.envelope.header.feh_hash,
                    cesi_budget: cesi,
                },
            },
        };
        proof {
            lemma_next_step(self.log@, 4);
        }
        self.log = Ghost(self.log@.push(Stage::RequestAuthority));
        self.request = Some(req);
        Ok(req)
    }

    /// Stage 5, second half: records Hacetime's answer to the outstanding
    /// request, which the answer consumes. A granted permit is recorded as it
    /// came; a denial fails with `AuthorityDenied`. Without a verified
    /// artifact it fails with `NoVerifiedArtifact`, without a resolution with
    /// `NoResolution`, and without an outstanding request with `NoRequest`;
    /// these change nothing.
    pub fn record_authority(&mut self, answer: AuthorityAnswer) -> (r: Result<(), PipelineError>)
        ensures
            old(self).verified_stage() is None ==> r == Err::<(), PipelineError>(
                PipelineError::NoVerifiedArtifact,
            ),
            old(self).verified_stage() is Some && old(self).resolution_stage() is None ==> r
                == Err::<(), PipelineError>(PipelineError::NoResolution),
            old(self).verified_stage() is Some && old(self).resolution_stage() is Some
                && old(self).request_stage() is None ==> r == Err::<(), PipelineError>(
                PipelineError::NoRequest,
            ),
            old(self).verified_stage() is Some && old(self).resolution_stage() is Some
                && old(self).request_stage() is Some ==> final(self).request_stage() is None
                && match answer {
                AuthorityAnswer::Granted(p) => r is Ok && final(self).permit_stage() == Some(p)
                    && final(self).history() == old(self).history().push(
                    Stage::RecordAuthority,
                ),
                AuthorityAnswer::Denied => r == Err::<(), PipelineError>(
                    PipelineError::Failed(LoaderError::AuthorityDenied),
                ),
            },
            r is Err ==> final(self).permit_stage() == old(self).permit_stage()
                && final(self).history() == old(self).history(),
            old(self).request_stage() is None ==> final(self).request_stage() is None,
            final(self).descriptor_stage() == old(self).descriptor_stage(),
            final(self).envelope_stage() == old(self).envelope_stage(),
            final(self).verified_stage() == old(self).verified_stage(),
            final(self).resolution_stage() == old(self).resolution_stage(),
            final(self).binding_stage() == old(self).binding_stage(),
    {
        proof {
            use_type_invariant(&*self);
        }
        let granted = match &self.verified {
            None => {
                return Err(PipelineError::NoVerifiedArtifact);
            },
            Some(artifact) => match &self.resolution {
                None => {
                    return Err(PipelineError::NoResolution);
                },
                Some(resolution) => {
                    if self.request.is_none() {
                        return Err(PipelineError::NoRequest);
                    }
                    Self::authorize_impl(artifact, resolution, answer)
                },
            },
        };
        self.request = None;
        match granted {
            Ok(p) => {
                proof {
                    lemma_next_step(self.log@, 5);
                }
                self.log = Ghost(self.log@.push(Stage::RecordAuthority));
                self.permit = Some(p);
                Ok(())
            },
            Err(e) => Err(PipelineError::Failed(e)),
        }
    }

    /// Stage 6: binds the permitted artifact to `host` and records the
    /// binding; fails, changing nothing, with `NoVerifiedArtifact` when
    /// nothing was verified and otherwise with `NoPermit` when no permit was
    /// granted.
    pub fn bind(&mut self, host: WasmHostContext) -> (r: Result<(), PipelineError>)
        ensures
            old(self).verified_stage() is None ==> r == Err::<(), PipelineError>(
                PipelineError::NoVerifiedArtifact,
            ),
            old(self).verified_stage() is Some && old(self).permit_stage() is None ==> r == Err::<
                (),
                PipelineError,
            >(PipelineError::NoPermit),
            old(self).verified_stage() is Some && old(self).permit_stage() is Some ==> r is Ok && (
            final(self).binding_stage() matches Some(b) && is_browser_binding(b, host)),
            r is Ok ==> final(self).history() == old(self).history().push(Stage::Bind),
            r is Err ==> final(self).binding_stage() == old(self).binding_stage()
                && final(self).history() == old(self).history(),
            final(self).descriptor_stage() == old(self).descriptor_stage(),
            final(self).envelope_stage() == old(self).envelope_stage(),
            final(self).verified_stage() == old(self).verified_stage(),
            final(self).resolution_stage() == old(self).resolution_stage(),
            final(self).request_stage() == old(self).request_stage(),
            final(self).permit_stage() == old(self).permit_stage(),
    {
        proof {
            use_type_invariant(&*self);
        }
        let bound = match &self.verified {
            None => {
                return Err(PipelineError::NoVerifiedArtifact);
            },
            Some(artifact) => match &self.permit {
                None => {
                    return Err(PipelineError::NoPermit);
                },
                Some(permit) => Self::bind_impl(artifact, permit, host),
            },
        };
        match bound {
            Ok(b) => {
                proof {
                    lemma_next_step(self.log@, 6);
                }
                self.log = Ghost(self.log@.push(Stage::Bind));
                self.binding = Some(b);
                Ok(())
            },
            Err(e) => Err(PipelineError::Failed(e)),
        }
    }

    /// Stage 7: takes the prepared binding and hands it to `runtime`. The
    /// binding is consumed whatever the outcome; with none prepared the step
    /// fails with `NoBinding`. A handoff succeeds only after DISCOVER, INGEST,
    /// VERIFY, RESOLVE, the request for authority, Hacetime's grant and BIND
    /// completed, in that order.
    pub fn handoff(&mut self, runtime: WasmRuntimeContext) -> (r: Result<
        WasmInstanceHandle,
        PipelineError,
    >)
        ensures
            final(self).binding_stage() is None,
            old(self).binding_stage() is None ==> r == Err::<WasmInstanceHandle, PipelineError>(
                PipelineError::NoBinding,
            ),
            old(self).binding_stage() is Some ==> (r matches Ok(h) && is_handoff_handle(h)),
            r is Ok ==> contains_in_order(old(self).history(), pipeline_order()),
            r is Ok ==> final(self).history() == old(self).history().push(Stage::Handoff),
            r is Err ==> final(self).history() == old(self).history(),
            r is Ok ==> {
                &&& old(self).descriptor_stage() is Some
                &&& old(self).envelope_stage() is Some
                &&& old(self).verified_stage() is Some
                &&& old(self).resolution_stage() is Some
                &&& old(self).permit_stage() is Some
            },
            final(self).descriptor_stage() == old(self).descriptor_stage(),
            final(self).envelope_stage() == old(self).envelope_stage(),
            final(self).verified_stage() == old(self).verified_stage(),
            final(self).resolution_stage() == old(self).resolution_stage(),
            final(self).request_stage() == old(self).request_stage(),
            final(self).permit_stage() == old(self).permit_stage(),
    {
        proof {
            use_type_invariant(&*self);
            lemma_completed_pipeline();
        }
        let mut taken: Option<HostBinding> = None;
        std::mem::swap(&mut taken, &mut self.binding);
        match taken {
            None => Err(PipelineError::NoBinding),
            Some(binding) => match Self::handoff_impl(binding, runtime) {
                Ok(h) => {
                    proof {
                        lemma_push_keeps_order(self.log@, Stage::Handoff);
                    }
                    self.log = Ghost(self.log@.push(Stage::Handoff));
                    Ok(h)
                },
                Err(e) => Err(PipelineError::Failed(e)),
            },
        }
    }

    /// Discovery of a buffer: always the `discovered` wasm descriptor.
    pub fn discover_impl(_input: ArtifactInput<'_>) -> (r: Result<ArtifactDescriptor, LoaderError>)
        ensures
            r matches Ok(d) && is_discovered_descriptor(d),
    {
        Ok(
            ArtifactDescriptor {
                artifact_id: String::from_str("discovered"),
                artifact_kind: String::from_str("wasm"),
                version: String::from_str("1.0"),
                source: String::from_str("buffer"),
                format: String::from_str("wasm"),
            },
        )
    }

    /// Ingestion: raw WASM bytes are read through their sealed header into
    /// an envelope that holds the payload and the seal the header names; a
    /// payload or seal that runs past the input, and any input that is not
    /// raw WASM, is refused as `InvalidFormat`.
    pub fn ingest_impl<'a>(input: ArtifactInput<'a>) -> (r: Result<ArtifactEnvelope, LoaderError>)
        ensures
            match input {
                ArtifactInput::RawWASM(data) => ingest_raw_outcome(data@, r),
                _ => r == Err::<ArtifactEnvelope, LoaderError>(LoaderError::InvalidFormat),
            },
    {
        match input {
            ArtifactInput::RawWASM(data) => {
                let header = match SealedHeader::parse(data) {
                    Ok(h) => h,
                    Err(e) => {
                        return Err(e);
                    },
                };
                let payload_offset = header.payload_offset as usize;
                let payload_len = header.payload_len as usize;
                let seal_offset = header.seal_offset as usize;
                let seal_len = header.seal_len as usize;
                if payload_len > data.len() || payload_offset > data.len() - payload_len
                    || seal_len > data.len() || seal_offset > data.len() - seal_len {
                    return Err(LoaderError::InvalidFormat);
                }
                let payload = copy_range(data, payload_offset, payload_offset + payload_len);
                let seal = copy_range(data, seal_offset, seal_offset + seal_len);
                let descriptor = match Self::discover_impl(ArtifactInput::RawWASM(data)) {
                    Ok(d) => d,
                    Err(e) => {
                        return Err(e);
                    },
                };
                let manifest = UniManifest {
                    id: String::new(),
                    name: String::new(),
                    version: String::new(),
                    authority_binding: String::new(),
                    capabilities: Vec::new(),
                    abi_version: String::new(),
                };
                Ok(
                    ArtifactEnvelope {
                        descriptor,
                        header,
                        manifest,
                        capabilities: Vec::new(),
                        payload,
                        seal,
                    },
                )
            },
            _ => Err(LoaderError::InvalidFormat),
        }
    }

    /// Verification: given the outcome of the integrity check, of the seal
    /// check and the FEH hash computed over the envelope, the envelope is
    /// verified when the checks passed and the hash is the one its header
    /// carries; otherwise the first failure is reported.
    pub fn verify_impl(
        envelope: &ArtifactEnvelope,
        integrity_ok: bool,
        seal_ok: bool,
        computed_feh: [u8; 32],
    ) -> (r: Result<VerifiedArtifact, LoaderError>)
        ensures
            match verification_failure(*envelope, integrity_ok, seal_ok, computed_feh@) {
                Some(e) => r == Err::<VerifiedArtifact, LoaderError>(e),
                None => r matches Ok(v) && is_verified_copy(v, *envelope),
            },
            r is Ok <==> (integrity_ok && seal_ok && computed_feh@ == envelope.header.feh_hash@),
            !integrity_ok ==> r == Err::<VerifiedArtifact, LoaderError>(
                LoaderError::IntegrityFailure,
            ),
            integrity_ok && !seal_ok ==> r == Err::<VerifiedArtifact, LoaderError>(
                LoaderError::SealVerificationFailed,
            ),
            integrity_ok && seal_ok && computed_feh@ != envelope.header.feh_hash@ ==> r == Err::<
                VerifiedArtifact,
                LoaderError,
            >(LoaderError::FEHMismatch),
            r matches Ok(v) ==> v.integrity_verified == integrity_ok && v.seal_valid == seal_ok
                && v.feh_match == (computed_feh@ == envelope.header.feh_hash@),
    {
        if !integrity_ok {
            return Err(LoaderError::IntegrityFailure);
        }
        if !seal_ok {
            return Err(LoaderError::SealVerificationFailed);
        }
        if !same_hash(&computed_feh, &envelope.header.feh_hash) {
            return Err(LoaderError::FEHMismatch);
        }
        Ok(
            VerifiedArtifact {
                envelope: envelope.clone(),
                integrity_verified: integrity_ok,
                seal_valid: seal_ok,
                feh_match: true,
            },
        )
    }

    /// Resolution against a browser runtime: compatible, with no gaps.
    pub fn resolve_impl(
        _artifact: &VerifiedArtifact,
        _host: &WasmHostContext,
        _runtime: &WasmRuntimeContext,
    ) -> (r: Result<RuntimeResolution, LoaderError>)
        ensures
            r matches Ok(res) && is_browser_resolution(res),
    {
        Ok(
            RuntimeResolution {
                compatible: true,
                runtime_adapter: String::from_str("wasm"),
                abi_adapter: String::from_str("1.0"),
                capability_gaps: Vec::new(),
            },
        )
    }

    /// Authorization: the permit that Hacetime granted, or `AuthorityDenied`
    /// when it refused.
    pub fn authorize_impl(
        _artifact: &VerifiedArtifact,
        _resolution: &RuntimeResolution,
        answer: AuthorityAnswer,
    ) -> (r: Result<ExecutionPermit, LoaderError>)
        ensures
            match answer {
                AuthorityAnswer::Granted(p) => r == Ok::<ExecutionPermit, LoaderError>(p),
                AuthorityAnswer::Denied => r == Err::<ExecutionPermit, LoaderError>(
                    LoaderError::AuthorityDenied,
                ),
            },
    {
        match answer {
            AuthorityAnswer::Granted(p) => Ok(p),
            AuthorityAnswer::Denied => Err(LoaderError::AuthorityDenied),
        }
    }

    /// Binding: the host's endpoint, PEG validated, with no imports.
    pub fn bind_impl(_artifact: &VerifiedArtifact, _permit: &ExecutionPermit, ctx: WasmHostContext) -> (r:
        Result<HostBinding, LoaderError>)
        ensures
            r matches Ok(b) && is_browser_binding(b, ctx),
            r matches Ok(b) ==> b.rac_endpoint.host@ == ctx.rac_endpoint.host@ && b.rac_endpoint.port
                == ctx.rac_endpoint.port && b.rac_endpoint.protocol == ctx.rac_endpoint.protocol,
    {
        Ok(HostBinding { rac_endpoint: ctx.rac_endpoint, peg_validated: true, import_object: Vec::new() })
    }

    /// Handoff: the `handoff_complete` instance, with no load evidence.
    pub fn handoff_impl(_binding: HostBinding, _runtime: WasmRuntimeContext) -> (r: Result<
        WasmInstanceHandle,
        LoaderError,
    >)
        ensures
            r matches Ok(h) && is_handoff_handle(h),
    {
        Ok(
            WasmInstanceHandle {
                instance_id: String::from_str("handoff_complete"),
                load_evidence: None,
            },
        )
    }
}

/// Verification reports the first failed check, in the order integrity,
/// seal, FEH hash, and passes exactly when all three are good: a broken seal
/// is refused whatever the hash, and a wrong hash whatever else passed.
pub proof fn lemma_verification_checks_in_order(
    env: ArtifactEnvelope,
    integrity_ok: bool,
    seal_ok: bool,
    computed_feh: Seq<u8>,
)
    ensures
        verification_failure(env, integrity_ok, seal_ok, computed_feh) is None <==> (integrity_ok
            && seal_ok && computed_feh == env.header.feh_hash@),
        !integrity_ok ==> verification_failure(env, integrity_ok, seal_ok, computed_feh) == Some(
            LoaderError::IntegrityFailure,
        ),
        integrity_ok && !seal_ok ==> verification_failure(env, integrity_ok, seal_ok, computed_feh)
            == Some(LoaderError::SealVerificationFailed),
        integrity_ok && seal_ok && computed_feh != env.header.feh_hash@ ==> verification_failure(
            env,
            integrity_ok,
            seal_ok,
            computed_feh,
        ) == Some(LoaderError::FEHMismatch),
{
}

/// A verified artifact has all three of its checks recorded as passed and
/// holds the envelope that was checked.
pub proof fn lemma_verified_copy_flags(v: VerifiedArtifact, env: ArtifactEnvelope)
    requires
        is_verified_copy(v, env),
    ensures
        v.integrity_verified && v.seal_valid && v.feh_match,
        v.envelope.header == env.header,
        v.envelope.payload@ == env.payload@,
        v.envelope.seal@ == env.seal@,
{
}

/// The binding made for a host carries that host's own RAC endpoint: the
/// same host, port and protocol.
pub proof fn lemma_binding_keeps_host_endpoint(b: HostBinding, host: WasmHostContext)
    requires
        is_browser_binding(b, host),
    ensures
        b.rac_endpoint.host@ == host.rac_endpoint.host@,
        b.rac_endpoint.port == host.rac_endpoint.port,
        b.rac_endpoint.protocol == host.rac_endpoint.protocol,
{
}

/// In a loader whose stages are in order, a prepared binding means that every
/// earlier stage has produced its output and that the stages of the pipeline
/// completed in order: nothing is bound without a descriptor, an envelope, a
/// verified artifact, a resolution and a permit from Hacetime.
pub proof fn lemma_binding_needs_every_earlier_stage(l: UniLoader)
    requires
        l.stages_ordered(),
        l.binding_stage() is Some,
    ensures
        l.permit_stage() is Some,
        l.resolution_stage() is Some,
        l.verified_stage() is Some,
        l.envelope_stage() is Some,
        l.descriptor_stage() is Some,
        contains_in_order(l.history(), pipeline_order()),
{
    lemma_completed_pipeline();
}

impl Default for UniLoader {
    /// The same loader as `new`.
    fn default() -> (l: Self)
        ensures
            l.descriptor_stage() is None,
            l.envelope_stage() is None,
            l.verified_stage() is None,
            l.resolution_stage() is None,
            l.request_stage() is None,
            l.permit_stage() is None,
            l.binding_stage() is None,
            l.history() == Seq::<Stage>::empty(),
    {
        Self::new()
    }
}

} // verus!
