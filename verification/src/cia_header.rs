//! The fixed 32-byte container header and the section offsets derived
//! from it.
//!
//! Every multi-byte header field is little-endian. Each section's on-disk
//! footprint is its declared size grown by `size % 64`; offsets are the
//! cumulative padded sizes of all preceding sections, in the fixed order
//! header, certificate chain, ticket, title metadata.

use vstd::prelude::*;

use crate::bytes_util::le_u16;
use crate::bytes_util::le_u32;
use crate::bytes_util::le_u64;
use crate::bytes_util::lemma_le_u16_round_trip;
use crate::bytes_util::lemma_le_u32_round_trip;
use crate::bytes_util::lemma_le_u64_round_trip;
use crate::bytes_util::read_le_u16;
use crate::bytes_util::read_le_u32;
use crate::bytes_util::read_le_u64;
use crate::bytes_util::u16_le_bytes;
use crate::bytes_util::u32_le_bytes;
use crate::bytes_util::u64_le_bytes;
use crate::bytes_util::write_le_u16;
use crate::bytes_util::write_le_u32;
use crate::bytes_util::write_le_u64;
use crate::error::CiaError;

verus! {

/// The container's fixed leading header: the byte sizes of every later
/// section, plus format tags. Field values are trusted as read; none is
/// range-checked.
#[derive(Clone, Copy, Debug, PartialEq, Eq, Structural)]
pub struct CIAHeaderInfo {
    pub header_size: u32,
    pub type_tag: u16,
    pub format_version: u16,
    pub cert_chain_size: u32,
    pub ticket_size: u32,
    pub title_metadata_size: u32,
    pub meta_size: u32,
    pub content_size: u64,
}

/// A section's on-disk footprint: the declared size plus its remainder
/// modulo 64. The format adds the remainder itself instead of rounding up
/// to the next 64-byte multiple; offset arithmetic must keep this exact
/// formula to stay byte-compatible with real containers.
pub open spec fn pad64(n: int) -> int {
    n + n % 64
}

/// The header value held little-endian in the first 32 bytes of `b`.
pub open spec fn spec_parse_header(b: Seq<u8>) -> CIAHeaderInfo
    recommends
        b.len() >= 32,
{
    CIAHeaderInfo {
        header_size: le_u32(b, 0),
        type_tag: le_u16(b, 4),
        format_version: le_u16(b, 6),
        cert_chain_size: le_u32(b, 8),
        ticket_size: le_u32(b, 12),
        title_metadata_size: le_u32(b, 16),
        meta_size: le_u32(b, 20),
        content_size: le_u64(b, 24),
    }
}

/// The 32-byte little-endian encoding of `h`, fields in file order.
pub open spec fn spec_encode_header(h: CIAHeaderInfo) -> Seq<u8> {
    u32_le_bytes(h.header_size) + u16_le_bytes(h.type_tag) + u16_le_bytes(h.format_version)
        + u32_le_bytes(h.cert_chain_size) + u32_le_bytes(h.ticket_size) + u32_le_bytes(
        h.title_metadata_size,
    ) + u32_le_bytes(h.meta_size) + u64_le_bytes(h.content_size)
}

/// Parses the fixed header from the leading bytes of `bytes`. Succeeds on
/// every source of at least 32 bytes — no field is validated — and fails
/// with `TruncatedInput` on anything shorter.
pub fn parse_header(bytes: &[u8]) -> (r: Result<CIAHeaderInfo, CiaError>)
    ensures
        bytes@.len() >= 32 ==> r is Ok && r->Ok_0 == spec_parse_header(bytes@),
        bytes@.len() < 32 ==> r is Err && r->Err_0 == CiaError::TruncatedInput,
{
    if bytes.len() < 32 {
        return Err(CiaError::TruncatedInput);
    }
    Ok(
        CIAHeaderInfo {
            header_size: read_le_u32(bytes, 0),
            type_tag: read_le_u16(bytes, 4),
            format_version: read_le_u16(bytes, 6),
            cert_chain_size: read_le_u32(bytes, 8),
            ticket_size: read_le_u32(bytes, 12),
            title_metadata_size: read_le_u32(bytes, 16),
            meta_size: read_le_u32(bytes, 20),
            content_size: read_le_u64(bytes, 24),
        },
    )
}

/// Encodes `h` back into its 32-byte little-endian file form.
pub fn encode_header(h: &CIAHeaderInfo) -> (r: Vec<u8>)
    ensures
        r@ == spec_encode_header(*h),
        r@.len() == 32,
{
    let mut out: Vec<u8> = Vec::new();
    write_le_u32(&mut out, h.header_size);
    write_le_u16(&mut out, h.type_tag);
    write_le_u16(&mut out, h.format_version);
    write_le_u32(&mut out, h.cert_chain_size);
    write_le_u32(&mut out, h.ticket_size);
    write_le_u32(&mut out, h.title_metadata_size);
    write_le_u32(&mut out, h.meta_size);
    write_le_u64(&mut out, h.content_size);
    proof {
        assert(out@ =~= spec_encode_header(*h));
    }
    out
}

impl CIAHeaderInfo {
    /// Absolute offset of the certificate chain: the padded header size.
    pub fn get_cert_chain_offset(&self) -> (r: u32)
        requires
            pad64(self.header_size as int) <= u32::MAX,
        ensures
            r == pad64(self.header_size as int),
    {
        self.header_size + self.header_size % 64
    }

    /// Absolute offset of the ticket: the padded header size plus the
    /// padded certificate-chain size.
    pub fn get_ticket_offset(&self) -> (r: u32)
        requires
            pad64(self.header_size as int) + pad64(self.cert_chain_size as int) <= u32::MAX,
        ensures
            r == pad64(self.header_size as int) + pad64(self.cert_chain_size as int),
    {
        (self.header_size + self.header_size % 64) + (self.cert_chain_size + self.cert_chain_size
            % 64)
    }

    /// Absolute offset of the title-metadata block: the padded sizes of
    /// header, certificate chain and ticket, summed.
    pub fn get_tmd_offset(&self) -> (r: u32)
        requires
            pad64(self.header_size as int) + pad64(self.cert_chain_size as int) + pad64(
                self.ticket_size as int,
            ) <= u32::MAX,
        ensures
            r == pad64(self.header_size as int) + pad64(self.cert_chain_size as int) + pad64(
                self.ticket_size as int,
            ),
    {
        (self.header_size + self.header_size % 64) + (self.cert_chain_size + self.cert_chain_size
            % 64) + (self.ticket_size + self.ticket_size % 64)
    }
}

/// Law: a size already on the 64-byte boundary gains no padding.
pub proof fn lemma_pad64_multiple_of_64(n: int)
    requires
        n % 64 == 0,
    ensures
        pad64(n) == n,
{
}

/// Law: re-encoding a parsed 32-byte header reproduces the input bytes
/// exactly; decoding loses nothing.
pub proof fn lemma_header_round_trip(b: Seq<u8>)
    requires
        b.len() == 32,
    ensures
        spec_encode_header(spec_parse_header(b)) == b,
{
    lemma_le_u32_round_trip(b, 0);
    lemma_le_u16_round_trip(b, 4);
    lemma_le_u16_round_trip(b, 6);
    lemma_le_u32_round_trip(b, 8);
    lemma_le_u32_round_trip(b, 12);
    lemma_le_u32_round_trip(b, 16);
    lemma_le_u32_round_trip(b, 20);
    lemma_le_u64_round_trip(b, 24);
    assert(spec_encode_header(spec_parse_header(b)) =~= b);
}

} // verus!
