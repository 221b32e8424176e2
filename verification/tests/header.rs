use hace_uni_loader::{LoaderError, SealedHeader, HACE_MAGIC, SEALED_HEADER_LEN};

fn sample_header_bytes() -> Vec<u8> {
    let mut b = Vec::new();
    b.extend_from_slice(b"HACE");
    b.extend_from_slice(&1u32.to_le_bytes());
    for i in 0..32u8 {
        b.push(i + 100);
    }
    for v in [10u32, 20, 30, 40, 50, 60, 70, 0x0102_0304] {
        b.extend_from_slice(&v.to_le_bytes());
    }
    b
}

#[test]
fn header_length_is_c_layout_size() {
    assert_eq!(SEALED_HEADER_LEN, 72);
    assert_eq!(sample_header_bytes().len(), SEALED_HEADER_LEN);
    assert_eq!(HACE_MAGIC, *b"HACE");
}

#[test]
fn parse_reads_every_field() {
    let bytes = sample_header_bytes();
    let h = SealedHeader::parse(&bytes).unwrap();
    assert_eq!(h.magic, *b"HACE");
    assert_eq!(h.version, 1);
    for i in 0..32 {
        assert_eq!(h.feh_hash[i], i as u8 + 100);
    }
    assert_eq!(h.manifest_offset, 10);
    assert_eq!(h.manifest_len, 20);
    assert_eq!(h.capability_offset, 30);
    assert_eq!(h.capability_len, 40);
    assert_eq!(h.payload_offset, 50);
    assert_eq!(h.payload_len, 60);
    assert_eq!(h.seal_offset, 70);
    assert_eq!(h.seal_len, 0x0102_0304);
    assert!(h.is_valid());
}

#[test]
fn parse_refuses_short_input() {
    let bytes = sample_header_bytes();
    assert_eq!(SealedHeader::parse(&bytes[..71]).unwrap_err(), LoaderError::InvalidFormat);
    assert_eq!(SealedHeader::parse(&[]).unwrap_err(), LoaderError::InvalidFormat);
    // A short input is refused for its length before its magic is read.
    assert_eq!(SealedHeader::parse(b"XXXX").unwrap_err(), LoaderError::InvalidFormat);
}

#[test]
fn parse_refuses_wrong_magic() {
    let mut bytes = sample_header_bytes();
    bytes[3] = b'F';
    assert_eq!(SealedHeader::parse(&bytes).unwrap_err(), LoaderError::InvalidMagicNumber);
    let mut bytes = sample_header_bytes();
    bytes[0] = b'h';
    assert_eq!(SealedHeader::parse(&bytes).unwrap_err(), LoaderError::InvalidMagicNumber);
}

#[test]
fn parse_ignores_bytes_after_the_header() {
    let bytes = sample_header_bytes();
    let mut longer = bytes.clone();
    longer.extend_from_slice(&[0xff; 40]);
    let a = SealedHeader::parse(&bytes).unwrap();
    let b = SealedHeader::parse(&longer).unwrap();
    assert_eq!(a.version, b.version);
    assert_eq!(a.feh_hash, b.feh_hash);
    assert_eq!(a.seal_len, b.seal_len);
}

#[test]
fn version_zero_header_is_not_valid() {
    let mut bytes = sample_header_bytes();
    bytes[4] = 0;
    let h = SealedHeader::parse(&bytes).unwrap();
    assert_eq!(h.version, 0);
    assert!(!h.is_valid());
}

#[test]
fn header_with_wrong_magic_is_not_valid() {
    let bytes = sample_header_bytes();
    let mut h = SealedHeader::parse(&bytes).unwrap();
    h.magic = *b"HACF";
    assert!(!h.is_valid());
}

#[test]
fn loader_error_messages() {
    let cases = [
        (LoaderError::InvalidMagicNumber, "Invalid HACE magic number"),
        (LoaderError::InvalidFormat, "Invalid artifact format"),
        (LoaderError::IntegrityFailure, "Artifact integrity check failed"),
        (LoaderError::SealVerificationFailed, "Atrust seal verification failed"),
        (LoaderError::FEHMismatch, "FEH hash mismatch"),
        (LoaderError::ProvenanceFailure, "Provenance verification failed"),
        (LoaderError::CapabilityUnsupported, "Capability not supported by host"),
        (LoaderError::AuthorityDenied, "Hacetime authority denied"),
        (LoaderError::HandoffFailed, "Runtime handoff failed"),
    ];
    for (e, text) in cases {
        assert_eq!(e.message(), text);
    }
}
