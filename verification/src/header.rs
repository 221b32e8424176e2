use vstd::prelude::*;

use crate::error::LoaderError;

verus! {

/// The four magic bytes that open every sealed artifact: `HACE`.
pub const HACE_MAGIC: [u8; 4] = [72u8, 65u8, 67u8, 69u8];

/// Size in bytes of the C layout of [`SealedHeader`]: the magic, the version,
/// the 32-byte FEH hash and eight 32-bit offsets and lengths.
pub const SEALED_HEADER_LEN: usize = 72;

/// The fixed header at the start of a sealed artifact.
///
/// Its byte layout is that of a C struct with these fields in this order and
/// no padding. The integers are read little-endian on every host: the bytes
/// of a sealed artifact mean the same wherever they are loaded, where a
/// reinterpretation of the memory in place would follow the host's byte order
/// and differ on a big-endian host.
#[derive(Debug, Clone, Copy)]
pub struct SealedHeader {
    pub magic: [u8; 4],
    pub version: u32,
    pub feh_hash: [u8; 32],
    pub manifest_offset: u32,
    pub manifest_len: u32,
    pub capability_offset: u32,
    pub capability_len: u32,
    pub payload_offset: u32,
    pub payload_len: u32,
    pub seal_offset: u32,
    pub seal_len: u32,
}

/// The magic bytes as a sequence.
pub open spec fn hace_magic() -> Seq<u8> {
    seq![72u8, 65u8, 67u8, 69u8]
}

/// The little-endian 32-bit integer held by the four bytes at `off`.
pub open spec fn le_u32_at(s: Seq<u8>, off: int) -> int {
    s[off] + 256 * s[off + 1] + 65536 * s[off + 2] + 16777216 * s[off + 3]
}

/// `h` is the header laid out in the first `SEALED_HEADER_LEN` bytes of `s`.
pub open spec fn decodes(h: SealedHeader, s: Seq<u8>) -> bool {
    &&& h.magic@ == s.subrange(0, 4)
    &&& h.version == le_u32_at(s, 4)
    &&& h.feh_hash@ == s.subrange(8, 40)
    &&& h.manifest_offset == le_u32_at(s, 40)
    &&& h.manifest_len == le_u32_at(s, 44)
    &&& h.capability_offset == le_u32_at(s, 48)
    &&& h.capability_len == le_u32_at(s, 52)
    &&& h.payload_offset == le_u32_at(s, 56)
    &&& h.payload_len == le_u32_at(s, 60)
    &&& h.seal_offset == le_u32_at(s, 64)
    &&& h.seal_len == le_u32_at(s, 68)
}

/// The input is long enough to hold a header.
pub open spec fn long_enough(s: Seq<u8>) -> bool {
    s.len() >= SEALED_HEADER_LEN
}

/// The input starts with the `HACE` magic.
pub open spec fn has_magic(s: Seq<u8>) -> bool {
    s.subrange(0, 4) == hace_magic()
}

/// The payload and the seal that the header names both lie inside `s`.
pub open spec fn sections_in_bounds(s: Seq<u8>) -> bool {
    &&& le_u32_at(s, 56) + le_u32_at(s, 60) <= s.len()
    &&& le_u32_at(s, 64) + le_u32_at(s, 68) <= s.len()
}

/// The payload bytes that the header of `s` names.
pub open spec fn payload_bytes(s: Seq<u8>) -> Seq<u8> {
    s.subrange(le_u32_at(s, 56), le_u32_at(s, 56) + le_u32_at(s, 60))
}

/// The seal bytes that the header of `s` names.
pub open spec fn seal_bytes(s: Seq<u8>) -> Seq<u8> {
    s.subrange(le_u32_at(s, 64), le_u32_at(s, 64) + le_u32_at(s, 68))
}

/// What `SealedHeader::is_valid` decides.
pub open spec fn header_is_valid(h: SealedHeader) -> bool {
    h.magic@ == hace_magic() && h.version != 0
}

/// Reads the little-endian `u32` at `off`.
fn read_u32_le(data: &[u8], off: usize) -> (r: u32)
    requires
        off + 4 <= data@.len(),
    ensures
        r == le_u32_at(data@, off as int),
{
    let b0 = data[off] as u32;
    let b1 = data[off + 1] as u32;
    let b2 = data[off + 2] as u32;
    let b3 = data[off + 3] as u32;
    b0 + b1 * 256 + b2 * 65536 + b3 * 16777216
}

impl SealedHeader {
    /// Reads a sealed header from the start of `data`.
    ///
    /// Fails with `InvalidFormat` when `data` is shorter than a header, and
    /// with `InvalidMagicNumber` when it does not start with `HACE`.
    pub fn parse(data: &[u8]) -> (res: Result<SealedHeader, LoaderError>)
        ensures
            !long_enough(data@) ==> res == Err::<SealedHeader, LoaderError>(
                LoaderError::InvalidFormat,
            ),
            long_enough(data@) && !has_magic(data@) ==> res == Err::<SealedHeader, LoaderError>(
                LoaderError::InvalidMagicNumber,
            ),
            long_enough(data@) && has_magic(data@) ==> (res matches Ok(h) && decodes(h, data@)),
    {
        if data.len() < SEALED_HEADER_LEN {
            return Err(LoaderError::InvalidFormat);
        }
        if data[0] != HACE_MAGIC[0] || data[1] != HACE_MAGIC[1] || data[2] != HACE_MAGIC[2]
            || data[3] != HACE_MAGIC[3] {
            proof {
                assert(data@.subrange(0, 4)[0] == data@[0]);
                assert(data@.subrange(0, 4)[1] == data@[1]);
                assert(data@.subrange(0, 4)[2] == data@[2]);
                assert(data@.subrange(0, 4)[3] == data@[3]);
            }
            return Err(LoaderError::InvalidMagicNumber);
        }
        let magic: [u8; 4] = [data[0], data[1], data[2], data[3]];
        let mut feh_hash: [u8; 32] = [0u8; 32];
        let mut i: usize = 0;
        while i < 32
            invariant
                i <= 32,
                data@.len() >= SEALED_HEADER_LEN,
                feh_hash@.len() == 32,
                forall|j: int| 0 <= j < i ==> feh_hash@[j] == data@[8 + j],
            decreases 32 - i,
        {
            feh_hash[i] = data[8 + i];
            i = i + 1;
        }
        let h = SealedHeader {
            magic,
            version: read_u32_le(data, 4),
            feh_hash,
            manifest_offset: read_u32_le(data, 40),
            manifest_len: read_u32_le(data, 44),
            capability_offset: read_u32_le(data, 48),
            capability_len: read_u32_le(data, 52),
            payload_offset: read_u32_le(data, 56),
            payload_len: read_u32_le(data, 60),
            seal_offset: read_u32_le(data, 64),
            seal_len: read_u32_le(data, 68),
        };
        assert(h.magic@ =~= data@.subrange(0, 4));
        assert(h.feh_hash@ =~= data@.subrange(8, 40));
        Ok(h)
    }

    /// A header is valid when it carries the `HACE` magic and a non-zero version.
    pub fn is_valid(&self) -> (r: bool)
        ensures
            r == header_is_valid(*self),
            r == (self.magic@[0] == 72u8 && self.magic@[1] == 65u8 && self.magic@[2] == 67u8
                && self.magic@[3] == 69u8 && self.version != 0),
    {
        let m = self.magic;
        let r = m[0] == HACE_MAGIC[0] && m[1] == HACE_MAGIC[1] && m[2] == HACE_MAGIC[2]
            && m[3] == HACE_MAGIC[3] && self.version != 0;
        proof {
            if m[0] == HACE_MAGIC[0] && m[1] == HACE_MAGIC[1] && m[2] == HACE_MAGIC[2]
                && m[3] == HACE_MAGIC[3] {
                assert(m@ =~= hace_magic());
            }
        }
        r
    }
}

/// A header is valid exactly when its four magic bytes are the ASCII codes of
/// `H`, `A`, `C`, `E` and its version is not zero.
pub proof fn lemma_validity_is_ascii_hace(h: SealedHeader)
    ensures
        header_is_valid(h) <==> (h.magic@[0] == 72u8 && h.magic@[1] == 65u8 && h.magic@[2] == 67u8
            && h.magic@[3] == 69u8 && h.version != 0),
{
    if h.magic@[0] == 72u8 && h.magic@[1] == 65u8 && h.magic@[2] == 67u8 && h.magic@[3] == 69u8 {
        assert(h.magic@ =~= hace_magic());
    }
}

/// An input carries the magic exactly when its first four bytes are the ASCII
/// codes of `H`, `A`, `C`, `E`.
pub proof fn lemma_magic_is_ascii_hace(s: Seq<u8>)
    requires
        s.len() >= 4,
    ensures
        has_magic(s) <==> (s[0] == 72u8 && s[1] == 65u8 && s[2] == 67u8 && s[3] == 69u8),
{
    assert(s.subrange(0, 4)[0] == s[0]);
    assert(s.subrange(0, 4)[1] == s[1]);
    assert(s.subrange(0, 4)[2] == s[2]);
    assert(s.subrange(0, 4)[3] == s[3]);
    if s[0] == 72u8 && s[1] == 65u8 && s[2] == 67u8 && s[3] == 69u8 {
        assert(s.subrange(0, 4) =~= hace_magic());
    }
}

/// Each field of a decoded header is read from its C-layout offset: the
/// magic from bytes 0..4, the hash from bytes 8..40, and every 32-bit field
/// as the full little-endian value of its four bytes, so that no bit of any
/// of them is lost.
pub proof fn lemma_decoded_fields(s: Seq<u8>, h: SealedHeader)
    requires
        long_enough(s),
        decodes(h, s),
    ensures
        forall|i: int| 0 <= i < 4 ==> h.magic@[i] == s[i],
        forall|i: int| 0 <= i < 32 ==> h.feh_hash@[i] == s[8 + i],
        h.version == s[4] + 256 * s[5] + 65536 * s[6] + 16777216 * s[7],
        h.manifest_offset == s[40] + 256 * s[41] + 65536 * s[42] + 16777216 * s[43],
        h.manifest_len == s[44] + 256 * s[45] + 65536 * s[46] + 16777216 * s[47],
        h.capability_offset == s[48] + 256 * s[49] + 65536 * s[50] + 16777216 * s[51],
        h.capability_len == s[52] + 256 * s[53] + 65536 * s[54] + 16777216 * s[55],
        h.payload_offset == s[56] + 256 * s[57] + 65536 * s[58] + 16777216 * s[59],
        h.payload_len == s[60] + 256 * s[61] + 65536 * s[62] + 16777216 * s[63],
        h.seal_offset == s[64] + 256 * s[65] + 65536 * s[66] + 16777216 * s[67],
        h.seal_len == s[68] + 256 * s[69] + 65536 * s[70] + 16777216 * s[71],
{
    assert forall|i: int| 0 <= i < 4 implies h.magic@[i] == s[i] by {
        assert(s.subrange(0, 4)[i] == s[i]);
    }
    assert forall|i: int| 0 <= i < 32 implies h.feh_hash@[i] == s[8 + i] by {
        assert(s.subrange(8, 40)[i] == s[8 + i]);
    }
}

/// Parsing reads the first `SEALED_HEADER_LEN` bytes and nothing after them:
/// two inputs that agree on those bytes decode to the same headers.
pub proof fn lemma_decode_reads_only_the_header(s: Seq<u8>, t: Seq<u8>, h: SealedHeader)
    requires
        long_enough(s),
        long_enough(t),
        s.subrange(0, SEALED_HEADER_LEN as int) == t.subrange(0, SEALED_HEADER_LEN as int),
    ensures
        decodes(h, s) <==> decodes(h, t),
        has_magic(s) <==> has_magic(t),
{
    let n = SEALED_HEADER_LEN as int;
    assert forall|i: int| 0 <= i < n implies s[i] == t[i] by {
        assert(s.subrange(0, n)[i] == s[i]);
        assert(t.subrange(0, n)[i] == t[i]);
    }
    assert(s.subrange(0, 4) =~= t.subrange(0, 4));
    assert(s.subrange(8, 40) =~= t.subrange(8, 40));
}

/// A header that parsing accepts always carries the magic, so it is valid
/// exactly when its version is non-zero.
pub proof fn lemma_parsed_header_validity(s: Seq<u8>, h: SealedHeader)
    requires
        long_enough(s),
        has_magic(s),
        decodes(h, s),
    ensures
        header_is_valid(h) <==> le_u32_at(s, 4) != 0,
{
}

} // verus!
