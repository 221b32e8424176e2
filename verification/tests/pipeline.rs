use hace_uni_loader::{
    ArtifactInput, AuthorityAnswer, AuthorityLevel, ExecutionPermit, HaceUniLoader, LoaderError, NativeLoader,
    PipelineError, RacProtocol, TransportKind, UniLoader, WasmHostContext, WasmRuntimeContext,
};

fn sealed_bytes(version: u32) -> Vec<u8> {
    let mut b = Vec::new();
    b.extend_from_slice(b"HACE");
    b.extend_from_slice(&version.to_le_bytes());
    b.extend_from_slice(&[7u8; 32]);
    // manifest, capabilities, payload (5 bytes at 72), seal (3 bytes at 77)
    for v in [0u32, 0, 0, 0, 72, 5, 77, 3] {
        b.extend_from_slice(&v.to_le_bytes());
    }
    b.extend_from_slice(&[1, 2, 3, 4, 5]);
    b.extend_from_slice(&[9, 8, 7]);
    b
}

const FEH: [u8; 32] = [7u8; 32];

fn permit(cesi: u64) -> ExecutionPermit {
    ExecutionPermit::granted([3; 16], FEH, cesi, vec!["net".to_string()])
}

/// Runs discovery through authorization on a fresh loader.
fn authorized_loader(host: &WasmHostContext) -> UniLoader {
    let bytes = sealed_bytes(1);
    let mut l = UniLoader::new();
    l.discover(&bytes).unwrap();
    l.ingest(&bytes).unwrap();
    l.verify(true, true, FEH).unwrap();
    l.resolve(host, &runtime()).unwrap();
    let req = l.request_authority(1000).unwrap();
    l.record_authority(AuthorityAnswer::Granted(permit(req.cesi_budget))).unwrap();
    l
}

fn runtime() -> WasmRuntimeContext {
    WasmRuntimeContext { runtime_id: "web".to_string(), adapter: "wasm".to_string() }
}

#[test]
fn full_pipeline_hands_off() {
    let bytes = sealed_bytes(1);
    let mut l = UniLoader::new();
    assert!(l.discover(&bytes).is_ok());
    assert!(l.ingest(&bytes).is_ok());
    assert!(l.verify(true, true, FEH).is_ok());
    let host = WasmHostContext::auto(TransportKind::WebSocket);
    assert!(l.resolve(&host, &runtime()).is_ok());
    let req = l.request_authority(1000).unwrap();
    assert_eq!(req.artifact_hash, FEH);
    assert_eq!(req.cesi_budget, 1000);
    assert!(l.record_authority(AuthorityAnswer::Granted(permit(1000))).is_ok());
    assert!(l.bind(host).is_ok());
    let h = l.handoff(runtime()).unwrap();
    assert_eq!(h.instance_id, "handoff_complete");
    assert!(h.load_evidence.is_none());
}

#[test]
fn handoff_consumes_the_binding() {
    let host = WasmHostContext::auto(TransportKind::Other);
    let mut l = authorized_loader(&host);
    l.bind(host.clone()).unwrap();
    assert!(l.handoff(runtime()).is_ok());
    assert_eq!(l.handoff(runtime()).unwrap_err(), PipelineError::NoBinding);
    // Binding again makes a second handoff possible.
    l.bind(host).unwrap();
    assert!(l.handoff(runtime()).is_ok());
}

#[test]
fn stages_out_of_order_are_refused() {
    let bytes = sealed_bytes(1);
    let mut l = UniLoader::new();
    let host = WasmHostContext::auto(TransportKind::WebSocket);
    assert_eq!(l.ingest(&bytes).unwrap_err(), PipelineError::NoDescriptor);
    assert_eq!(l.verify(true, true, FEH).unwrap_err(), PipelineError::NoEnvelope);
    assert_eq!(l.resolve(&host, &runtime()).unwrap_err(), PipelineError::NoVerifiedArtifact);
    assert_eq!(l.request_authority(1).unwrap_err(), PipelineError::NoVerifiedArtifact);
    assert_eq!(
        l.record_authority(AuthorityAnswer::Granted(permit(1))).unwrap_err(),
        PipelineError::NoVerifiedArtifact
    );
    assert_eq!(l.bind(host.clone()).unwrap_err(), PipelineError::NoVerifiedArtifact);
    assert_eq!(l.handoff(runtime()).unwrap_err(), PipelineError::NoBinding);

    l.discover(&bytes).unwrap();
    l.ingest(&bytes).unwrap();
    l.verify(true, true, FEH).unwrap();
    assert_eq!(l.request_authority(1).unwrap_err(), PipelineError::NoResolution);
    assert_eq!(
        l.record_authority(AuthorityAnswer::Granted(permit(1))).unwrap_err(),
        PipelineError::NoResolution
    );
    assert_eq!(l.bind(host.clone()).unwrap_err(), PipelineError::NoPermit);
    l.resolve(&host, &runtime()).unwrap();
    assert_eq!(l.bind(host.clone()).unwrap_err(), PipelineError::NoPermit);
    assert_eq!(
        l.record_authority(AuthorityAnswer::Granted(permit(1))).unwrap_err(),
        PipelineError::NoRequest
    );
    assert_eq!(l.bind(host.clone()).unwrap_err(), PipelineError::NoPermit);
    l.request_authority(1).unwrap();
    l.record_authority(AuthorityAnswer::Granted(permit(1))).unwrap();
    assert!(l.bind(host).is_ok());
}

#[test]
fn an_answer_consumes_the_request() {
    let host = WasmHostContext::auto(TransportKind::WebSocket);
    let mut l = authorized_loader(&host);
    assert_eq!(
        l.record_authority(AuthorityAnswer::Granted(permit(2))).unwrap_err(),
        PipelineError::NoRequest
    );
    l.request_authority(2).unwrap();
    assert_eq!(
        l.record_authority(AuthorityAnswer::Denied).unwrap_err(),
        PipelineError::Failed(LoaderError::AuthorityDenied)
    );
    assert_eq!(l.record_authority(AuthorityAnswer::Denied).unwrap_err(), PipelineError::NoRequest);
    // The permit granted earlier stays.
    assert!(l.bind(host).is_ok());
}

#[test]
fn hacetime_denial_is_recorded_as_refusal() {
    let bytes = sealed_bytes(1);
    let host = WasmHostContext::auto(TransportKind::WebSocket);
    let mut l = UniLoader::new();
    l.discover(&bytes).unwrap();
    l.ingest(&bytes).unwrap();
    l.verify(true, true, FEH).unwrap();
    l.resolve(&host, &runtime()).unwrap();
    l.request_authority(10).unwrap();
    assert_eq!(
        l.record_authority(AuthorityAnswer::Denied).unwrap_err(),
        PipelineError::Failed(LoaderError::AuthorityDenied)
    );
    // Without a permit nothing can be bound.
    assert_eq!(l.bind(host).unwrap_err(), PipelineError::NoPermit);
}

#[test]
fn verification_failures_are_reported_in_order() {
    let bytes = sealed_bytes(1);
    let mut l = UniLoader::new();
    l.discover(&bytes).unwrap();
    l.ingest(&bytes).unwrap();
    assert_eq!(
        l.verify(false, false, [0; 32]).unwrap_err(),
        PipelineError::Failed(LoaderError::IntegrityFailure)
    );
    assert_eq!(
        l.verify(true, false, [0; 32]).unwrap_err(),
        PipelineError::Failed(LoaderError::SealVerificationFailed)
    );
    assert_eq!(
        l.verify(true, true, [0; 32]).unwrap_err(),
        PipelineError::Failed(LoaderError::FEHMismatch)
    );
    let host = WasmHostContext::auto(TransportKind::WebSocket);
    assert_eq!(l.resolve(&host, &runtime()).unwrap_err(), PipelineError::NoVerifiedArtifact);
    assert!(l.verify(true, true, FEH).is_ok());
    assert!(l.resolve(&host, &runtime()).is_ok());
}

#[test]
fn discover_does_not_ingest() {
    let mut l = UniLoader::new();
    assert!(l.discover(b"not an artifact").is_ok());
    assert_eq!(l.verify(true, true, FEH).unwrap_err(), PipelineError::NoEnvelope);
}

#[test]
fn ingest_refuses_bad_bytes() {
    let mut l = UniLoader::new();
    l.discover(b"").unwrap();
    assert_eq!(
        l.ingest(b"HACE").unwrap_err(),
        PipelineError::Failed(LoaderError::InvalidFormat)
    );
    let mut bytes = sealed_bytes(1);
    bytes[0] = b'X';
    assert_eq!(
        l.ingest(&bytes).unwrap_err(),
        PipelineError::Failed(LoaderError::InvalidMagicNumber)
    );
    let bytes = sealed_bytes(1);
    assert_eq!(
        l.ingest(&bytes[..79]).unwrap_err(),
        PipelineError::Failed(LoaderError::InvalidFormat)
    );
    assert_eq!(l.verify(true, true, FEH).unwrap_err(), PipelineError::NoEnvelope);
}

#[test]
fn ingest_refuses_sections_past_the_input() {
    let mut bytes = sealed_bytes(1);
    // payload offset 0xffff_fff0 with length 0x20 would wrap a 32-bit sum
    bytes[56..60].copy_from_slice(&0xffff_fff0u32.to_le_bytes());
    bytes[60..64].copy_from_slice(&0x20u32.to_le_bytes());
    assert_eq!(
        UniLoader::ingest_impl(ArtifactInput::RawWASM(&bytes)).err(),
        Some(LoaderError::InvalidFormat)
    );
    let mut bytes = sealed_bytes(1);
    bytes[68..72].copy_from_slice(&4u32.to_le_bytes());
    assert_eq!(
        UniLoader::ingest_impl(ArtifactInput::RawWASM(&bytes)).err(),
        Some(LoaderError::InvalidFormat)
    );
}

#[test]
fn failed_ingest_keeps_the_earlier_envelope() {
    let mut l = UniLoader::new();
    l.discover(b"").unwrap();
    l.ingest(&sealed_bytes(1)).unwrap();
    assert!(l.ingest(b"short").is_err());
    assert!(l.verify(true, true, FEH).is_ok());
}

#[test]
fn ingest_impl_builds_the_envelope() {
    let bytes = sealed_bytes(9);
    let env = UniLoader::ingest_impl(ArtifactInput::RawWASM(&bytes)).unwrap();
    assert_eq!(env.header.version, 9);
    assert_eq!(env.header.feh_hash, FEH);
    assert_eq!(env.header.seal_len, 3);
    assert_eq!(env.descriptor.artifact_id, "discovered");
    assert_eq!(env.descriptor.artifact_kind, "wasm");
    assert_eq!(env.descriptor.version, "1.0");
    assert_eq!(env.descriptor.source, "buffer");
    assert_eq!(env.descriptor.format, "wasm");
    assert_eq!(env.manifest.id, "");
    assert!(env.manifest.capabilities.is_empty());
    assert!(env.capabilities.is_empty());
    assert_eq!(env.payload, vec![1, 2, 3, 4, 5]);
    assert_eq!(env.seal, vec![9, 8, 7]);

    let v = UniLoader::verify_impl(&env, true, true, FEH).unwrap();
    assert!(v.integrity_verified && v.seal_valid && v.feh_match);
    assert_eq!(v.envelope.header.version, 9);
    assert_eq!(v.envelope.descriptor.artifact_id, "discovered");
    assert_eq!(v.envelope.payload, vec![1, 2, 3, 4, 5]);
    assert_eq!(v.envelope.seal, vec![9, 8, 7]);
}

#[test]
fn ingest_impl_allows_empty_sections() {
    let mut bytes = sealed_bytes(1);
    for k in 56..72 {
        bytes[k] = 0;
    }
    let env = UniLoader::ingest_impl(ArtifactInput::RawWASM(&bytes[..72])).unwrap();
    assert!(env.payload.is_empty());
    assert!(env.seal.is_empty());
}

#[test]
fn ingest_impl_refuses_other_inputs() {
    let bytes = sealed_bytes(1);
    assert_eq!(
        UniLoader::ingest_impl(ArtifactInput::SealedBundle(&bytes)).err(),
        Some(LoaderError::InvalidFormat)
    );
    assert_eq!(
        UniLoader::ingest_impl(ArtifactInput::FilePath("artifact.wasm")).err(),
        Some(LoaderError::InvalidFormat)
    );
}

#[test]
fn stage_impls_give_browser_outputs() {
    let bytes = sealed_bytes(1);
    let env = UniLoader::ingest_impl(ArtifactInput::RawWASM(&bytes)).unwrap();
    assert_eq!(
        UniLoader::verify_impl(&env, false, true, FEH).err().unwrap(),
        LoaderError::IntegrityFailure
    );
    let v = UniLoader::verify_impl(&env, true, true, FEH).unwrap();
    let host = WasmHostContext::auto(TransportKind::NamedPipe);
    let r = UniLoader::resolve_impl(&v, &host, &runtime()).unwrap();
    assert!(r.compatible);
    assert_eq!(r.runtime_adapter, "wasm");
    assert_eq!(r.abi_adapter, "1.0");
    assert!(r.capability_gaps.is_empty());
    assert_eq!(
        UniLoader::authorize_impl(&v, &r, AuthorityAnswer::Denied).err().unwrap(),
        LoaderError::AuthorityDenied
    );
    let p = UniLoader::authorize_impl(&v, &r, AuthorityAnswer::Granted(permit(1000))).unwrap();
    assert_eq!(p.cesi_budget, 1000);
    assert_eq!(p.permit_id, [3u8; 16]);
    assert_eq!(p.artifact_hash, FEH);
    let b = UniLoader::bind_impl(&v, &p, host).unwrap();
    assert!(b.peg_validated);
    assert_eq!(b.rac_endpoint.port, 0);
    assert!(matches!(b.rac_endpoint.protocol, RacProtocol::Raci));
    assert!(b.import_object.is_empty());
    let h = UniLoader::handoff_impl(b, runtime()).unwrap();
    assert_eq!(h.instance_id, "handoff_complete");
}

#[test]
fn granted_permit_scope() {
    let p = ExecutionPermit::granted([1; 16], [2; 32], 77, vec!["net".to_string()]);
    assert_eq!(p.permit_id, [1; 16]);
    assert_eq!(p.artifact_hash, [2; 32]);
    assert_eq!(p.cesi_budget, 77);
    assert_eq!(p.granted_capabilities, vec!["net".to_string()]);
    assert_eq!(p.scope.host_surface, "unknown");
    assert_eq!(p.scope.runtime_id, "default");
    assert!(p.scope.session_id.is_none());
    assert_eq!(p.expires_at, 0);
}

#[test]
fn default_authority_level_is_user_plus() {
    assert_eq!(AuthorityLevel::default(), AuthorityLevel::UserPlus);
}

#[test]
fn pipeline_error_messages() {
    assert_eq!(PipelineError::NoDescriptor.message(), "No artifact discovered");
    assert_eq!(PipelineError::NoRequest.message(), "No authority requested");
    assert_eq!(PipelineError::NoEnvelope.message(), "No envelope ingested");
    assert_eq!(PipelineError::NoVerifiedArtifact.message(), "No verified artifact");
    assert_eq!(PipelineError::NoResolution.message(), "No runtime resolution");
    assert_eq!(PipelineError::NoPermit.message(), "No execution permit");
    assert_eq!(PipelineError::NoBinding.message(), "No binding prepared");
    assert_eq!(
        PipelineError::Failed(LoaderError::FEHMismatch).message(),
        "FEH hash mismatch"
    );
}

#[test]
fn native_loader_refuses_every_stage() {
    let bytes = sealed_bytes(1);
    assert_eq!(
        NativeLoader::discover(ArtifactInput::RawWASM(&bytes)).err(),
        Some(LoaderError::InvalidFormat)
    );
    assert_eq!(
        NativeLoader::ingest(ArtifactInput::RawWASM(&bytes)).err(),
        Some(LoaderError::InvalidFormat)
    );
    let env = UniLoader::ingest_impl(ArtifactInput::RawWASM(&bytes)).unwrap();
    assert_eq!(NativeLoader::verify(&env).err(), Some(LoaderError::IntegrityFailure));
    let v = UniLoader::verify_impl(&env, true, true, FEH).unwrap();
    assert_eq!(NativeLoader::resolve(&v, &(), &()).err(), Some(LoaderError::CapabilityUnsupported));
    let host = WasmHostContext::auto(TransportKind::WebSocket);
    let r = UniLoader::resolve_impl(&v, &host, &runtime()).unwrap();
    assert_eq!(NativeLoader::request_authority(&v, &r).err(), Some(LoaderError::AuthorityDenied));
    let p = UniLoader::authorize_impl(&v, &r, AuthorityAnswer::Granted(permit(1))).unwrap();
    assert_eq!(NativeLoader::bind(&v, &p, ()).err(), Some(LoaderError::CapabilityUnsupported));
    assert_eq!(NativeLoader::handoff((), ()).err(), Some(LoaderError::HandoffFailed));
}
