//! The fixed-layout quote record and its decoder.
//!
//! A quote buffer is read strictly left-to-right from offset 0: a 48-byte
//! header, a 6-byte body descriptor (type and declared size), then the
//! 648-byte trust-domain report body — 702 bytes in all. Multi-byte integers
//! are little-endian; every other field is an opaque byte string copied
//! verbatim. Trailing bytes (such as certification data) are ignored.

use vstd::prelude::*;

verus! {

/// Offset of the trust-domain report body: the 48-byte header plus the
/// 6-byte body descriptor.
pub const BODY_OFFSET: usize = 54;

/// Length in bytes of the fixed trust-domain report body.
pub const TD_QUOTE_BODY_LEN: usize = 648;

/// Total length of the fixed quote region that decoding consumes.
pub const QUOTE_FIXED_LEN: usize = 702;

/// Why a buffer failed to decode.
#[derive(Clone, Copy, Debug, PartialEq, Eq, Structural)]
pub enum QuoteError {
    /// The buffer ends before the fixed 702-byte quote region is satisfied.
    TruncatedInput,
    /// The 4-byte TEE-type discriminator is outside the known enumeration.
    UnrecognizedTeeType,
}

/// The TEE-type discriminator: a closed enumeration. Any other code is a
/// malformed-input condition, never silently mapped to a known type.
#[derive(Clone, Copy, Debug, PartialEq, Eq, Structural)]
pub enum TeeType {
    Sgx,
    Tdx,
}

/// The 4-byte little-endian code that the wire format assigns to each known
/// TEE type.
pub open spec fn tee_type_code(t: TeeType) -> u32 {
    match t {
        TeeType::Sgx => 0x00000000,
        TeeType::Tdx => 0x00000081,
    }
}

/// Whether a 4-byte TEE-type code belongs to the known enumeration.
pub open spec fn is_known_tee_code(code: u32) -> bool {
    code == 0x00000000 || code == 0x00000081
}

/// The fixed 48-byte quote header.
#[derive(Debug, PartialEq, Eq)]
pub struct QuoteHeader {
    /// Bytes 0-1, little-endian.
    pub version: u16,
    /// Bytes 2-3, little-endian.
    pub attestation_key_type: u16,
    /// Bytes 4-7, little-endian, restricted to the known enumeration.
    pub tee_type: TeeType,
    /// Bytes 8-9, opaque, preserved verbatim.
    pub reserved1: Vec<u8>,
    /// Bytes 10-11, opaque, preserved verbatim.
    pub reserved2: Vec<u8>,
    /// Bytes 12-27: a 128-bit quoting-enclave vendor identifier, kept as its
    /// 16 raw bytes; rendering it in UUID text form is a display concern.
    pub qe_vendor_id: Vec<u8>,
    /// Bytes 28-47, opaque.
    pub user_data: Vec<u8>,
}

/// The fixed-layout trust-domain report body: seventeen raw byte-string
/// fields consumed strictly in declaration order with no padding between
/// them, 648 bytes in all.
#[derive(Debug, PartialEq, Eq)]
pub struct TDQuoteBody {
    /// 16 bytes: TCB security-version numbers.
    pub tee_tcb_svn: Vec<u8>,
    /// 48 bytes: measurement of the SEAM module.
    pub mrseam: Vec<u8>,
    /// 48 bytes: measurement of the SEAM module's signer.
    pub mrsignerseam: Vec<u8>,
    /// 8 bytes: SEAM attribute mask.
    pub seamattributes: Vec<u8>,
    /// 8 bytes: packed TD attribute word; see [`crate::attributes`].
    pub tdattributes: Vec<u8>,
    /// 8 bytes: extended-features allowed mask.
    pub xfam: Vec<u8>,
    /// 48 bytes: build-time trust-domain measurement.
    pub mrtd: Vec<u8>,
    /// 48 bytes: software-defined configuration identifier.
    pub mrconfigid: Vec<u8>,
    /// 48 bytes: software-defined owner identifier.
    pub mrowner: Vec<u8>,
    /// 48 bytes: software-defined owner configuration.
    pub mrownerconfig: Vec<u8>,
    /// 48 bytes: runtime-measurement register 0.
    pub rtmr0: Vec<u8>,
    /// 48 bytes: runtime-measurement register 1.
    pub rtmr1: Vec<u8>,
    /// 48 bytes: runtime-measurement register 2.
    pub rtmr2: Vec<u8>,
    /// 48 bytes: runtime-measurement register 3.
    pub rtmr3: Vec<u8>,
    /// 64 bytes: report data supplied by the trust domain.
    pub reportdata: Vec<u8>,
    /// 16 bytes: second set of TCB security-version numbers.
    pub tee_tcb_svn_2: Vec<u8>,
    /// 48 bytes: measurement of the service trust domain.
    pub mrservicetd: Vec<u8>,
}

/// The body descriptor and the report body it introduces. The declared size
/// is recorded but advisory: decoding always reads the fixed body schema.
#[derive(Debug, PartialEq, Eq)]
pub struct QuoteBody {
    /// Bytes 48-49, little-endian.
    pub td_quote_body_type: u16,
    /// Bytes 50-53, little-endian; stored, not used to alter parsing.
    pub size: u32,
    /// Bytes 54-701.
    pub td_quote_body: TDQuoteBody,
}

/// The decoded quote: terminal, immutable output of one decode pass.
#[derive(Debug, PartialEq, Eq)]
pub struct Quote {
    pub header: QuoteHeader,
    pub body: QuoteBody,
}

impl QuoteHeader {
    /// Field widths of a well-formed header.
    pub open spec fn wf(self) -> bool {
        &&& self.reserved1@.len() == 2
        &&& self.reserved2@.len() == 2
        &&& self.qe_vendor_id@.len() == 16
        &&& self.user_data@.len() == 20
    }
}

impl TDQuoteBody {
    /// Field widths of a well-formed report body.
    pub open spec fn wf(self) -> bool {
        &&& self.tee_tcb_svn@.len() == 16
        &&& self.mrseam@.len() == 48
        &&& self.mrsignerseam@.len() == 48
        &&& self.seamattributes@.len() == 8
        &&& self.tdattributes@.len() == 8
        &&& self.xfam@.len() == 8
        &&& self.mrtd@.len() == 48
        &&& self.mrconfigid@.len() == 48
        &&& self.mrowner@.len() == 48
        &&& self.mrownerconfig@.len() == 48
        &&& self.rtmr0@.len() == 48
        &&& self.rtmr1@.len() == 48
        &&& self.rtmr2@.len() == 48
        &&& self.rtmr3@.len() == 48
        &&& self.reportdata@.len() == 64
        &&& self.tee_tcb_svn_2@.len() == 16
        &&& self.mrservicetd@.len() == 48
    }
}

impl Quote {
    /// Field widths of a well-formed quote.
    pub open spec fn wf(self) -> bool {
        self.header.wf() && self.body.td_quote_body.wf()
    }
}

/// What a correct decode of the report body at `off` looks like: each field
/// equals the byte range of the buffer at its documented offset.
pub open spec fn td_body_matches(b: TDQuoteBody, s: Seq<u8>, off: int) -> bool {
    &&& b.tee_tcb_svn@ == s.subrange(off, off + 16)
    &&& b.mrseam@ == s.subrange(off + 16, off + 64)
    &&& b.mrsignerseam@ == s.subrange(off + 64, off + 112)
    &&& b.seamattributes@ == s.subrange(off + 112, off + 120)
    &&& b.tdattributes@ == s.subrange(off + 120, off + 128)
    &&& b.xfam@ == s.subrange(off + 128, off + 136)
    &&& b.mrtd@ == s.subrange(off + 136, off + 184)
    &&& b.mrconfigid@ == s.subrange(off + 184, off + 232)
    &&& b.mrowner@ == s.subrange(off + 232, off + 280)
    &&& b.mrownerconfig@ == s.subrange(off + 280, off + 328)
    &&& b.rtmr0@ == s.subrange(off + 328, off + 376)
    &&& b.rtmr1@ == s.subrange(off + 376, off + 424)
    &&& b.rtmr2@ == s.subrange(off + 424, off + 472)
    &&& b.rtmr3@ == s.subrange(off + 472, off + 520)
    &&& b.reportdata@ == s.subrange(off + 520, off + 584)
    &&& b.tee_tcb_svn_2@ == s.subrange(off + 584, off + 600)
    &&& b.mrservicetd@ == s.subrange(off + 600, off + 648)
}

/// What a correct decode of the header looks like: every field equals the
/// little-endian integer or byte range of the buffer at its documented
/// offset, and the TEE type carries exactly the code found at bytes 4-7.
pub open spec fn header_matches(h: QuoteHeader, s: Seq<u8>) -> bool {
    &&& h.version == vstd::bytes::spec_u16_from_le_bytes(s.subrange(0, 2))
    &&& h.attestation_key_type == vstd::bytes::spec_u16_from_le_bytes(s.subrange(2, 4))
    &&& tee_type_code(h.tee_type) == vstd::bytes::spec_u32_from_le_bytes(s.subrange(4, 8))
    &&& h.reserved1@ == s.subrange(8, 10)
    &&& h.reserved2@ == s.subrange(10, 12)
    &&& h.qe_vendor_id@ == s.subrange(12, 28)
    &&& h.user_data@ == s.subrange(28, 48)
}

/// What a correct decode of the whole fixed quote region looks like.
pub open spec fn quote_matches(q: Quote, s: Seq<u8>) -> bool {
    &&& header_matches(q.header, s)
    &&& q.body.td_quote_body_type == vstd::bytes::spec_u16_from_le_bytes(s.subrange(48, 50))
    &&& q.body.size == vstd::bytes::spec_u32_from_le_bytes(s.subrange(50, 54))
    &&& td_body_matches(q.body.td_quote_body, s, BODY_OFFSET as int)
}

/// The TEE-type code a buffer carries at its documented offset.
pub open spec fn buffer_tee_code(s: Seq<u8>) -> u32
    recommends
        s.len() >= 8,
{
    vstd::bytes::spec_u32_from_le_bytes(s.subrange(4, 8))
}

/// Copy one field's bytes out of the buffer.
fn field_bytes(data: &[u8], start: usize, end: usize) -> (r: Vec<u8>)
    requires
        start <= end <= data@.len(),
    ensures
        r@ == data@.subrange(start as int, end as int),
{
    vstd::slice::slice_to_vec(vstd::slice::slice_subrange(data, start, end))
}

/// Read the 2-byte little-endian integer at `start`.
fn read_u16_le(data: &[u8], start: usize) -> (r: u16)
    requires
        start + 2 <= data@.len(),
    ensures
        r == vstd::bytes::spec_u16_from_le_bytes(data@.subrange(start as int, start as int + 2)),
{
    // Reading the length brings the slice's usize bound into scope, so the
    // offset arithmetic below is known not to overflow.
    let n: usize = data.len();
    assert(start + 2 <= n);
    vstd::bytes::u16_from_le_bytes(vstd::slice::slice_subrange(data, start, start + 2))
}

/// Read the 4-byte little-endian integer at `start`.
fn read_u32_le(data: &[u8], start: usize) -> (r: u32)
    requires
        start + 4 <= data@.len(),
    ensures
        r == vstd::bytes::spec_u32_from_le_bytes(data@.subrange(start as int, start as int + 4)),
{
    // As in read_u16_le: the length bound keeps the offsets from overflowing.
    let n: usize = data.len();
    assert(start + 4 <= n);
    vstd::bytes::u32_from_le_bytes(vstd::slice::slice_subrange(data, start, start + 4))
}

/// Decode the fixed-layout trust-domain report body that starts at `offset`,
/// consuming its seventeen fields strictly in declaration order.
pub fn parse_td_quote_body(data: &[u8], offset: usize) -> (b: TDQuoteBody)
    requires
        offset + TD_QUOTE_BODY_LEN <= data@.len(),
    ensures
        td_body_matches(b, data@, offset as int),
        b.wf(),
{
    // As in read_u16_le: the length bound keeps the offsets from overflowing.
    let n: usize = data.len();
    assert(offset + TD_QUOTE_BODY_LEN <= n);
    TDQuoteBody {
        tee_tcb_svn: field_bytes(data, offset, offset + 16),
        mrseam: field_bytes(data, offset + 16, offset + 64),
        mrsignerseam: field_bytes(data, offset + 64, offset + 112),
        seamattributes: field_bytes(data, offset + 112, offset + 120),
        tdattributes: field_bytes(data, offset + 120, offset + 128),
        xfam: field_bytes(data, offset + 128, offset + 136),
        mrtd: field_bytes(data, offset + 136, offset + 184),
        mrconfigid: field_bytes(data, offset + 184, offset + 232),
        mrowner: field_bytes(data, offset + 232, offset + 280),
        mrownerconfig: field_bytes(data, offset + 280, offset + 328),
        rtmr0: field_bytes(data, offset + 328, offset + 376),
        rtmr1: field_bytes(data, offset + 376, offset + 424),
        rtmr2: field_bytes(data, offset + 424, offset + 472),
        rtmr3: field_bytes(data, offset + 472, offset + 520),
        reportdata: field_bytes(data, offset + 520, offset + 584),
        tee_tcb_svn_2: field_bytes(data, offset + 584, offset + 600),
        mrservicetd: field_bytes(data, offset + 600, offset + 648),
    }
}

/// Decode a quote buffer.
///
/// Fails with `TruncatedInput` on any buffer shorter than the fixed
/// 702-byte quote region, before any field is interpreted; fails with
/// `UnrecognizedTeeType` when the buffer is long enough but its TEE-type
/// code is outside the known enumeration; otherwise succeeds, and every
/// field of the result equals the byte range or little-endian integer of
/// the input at its documented offset. Trailing bytes are ignored.
pub fn parse_quote(data: &[u8]) -> (r: Result<Quote, QuoteError>)
    ensures
        data@.len() < QUOTE_FIXED_LEN ==> r == Err::<Quote, QuoteError>(
            QuoteError::TruncatedInput,
        ),
        data@.len() >= QUOTE_FIXED_LEN && !is_known_tee_code(buffer_tee_code(data@)) ==> r
            == Err::<Quote, QuoteError>(QuoteError::UnrecognizedTeeType),
        data@.len() >= QUOTE_FIXED_LEN && is_known_tee_code(buffer_tee_code(data@)) ==> r is Ok
            && quote_matches(r->Ok_0, data@) && r->Ok_0.wf(),
{
    if data.len() < QUOTE_FIXED_LEN {
        return Err(QuoteError::TruncatedInput);
    }
    let tee_code = read_u32_le(data, 4);
    let tee_type = if tee_code == 0x00000000 {
        TeeType::Sgx
    } else if tee_code == 0x00000081 {
        TeeType::Tdx
    } else {
        return Err(QuoteError::UnrecognizedTeeType);
    };
    let header = QuoteHeader {
        version: read_u16_le(data, 0),
        attestation_key_type: read_u16_le(data, 2),
        tee_type,
        reserved1: field_bytes(data, 8, 10),
        reserved2: field_bytes(data, 10, 12),
        qe_vendor_id: field_bytes(data, 12, 28),
        user_data: field_bytes(data, 28, 48),
    };
    let body = QuoteBody {
        td_quote_body_type: read_u16_le(data, 48),
        size: read_u32_le(data, 50),
        td_quote_body: parse_td_quote_body(data, BODY_OFFSET),
    };
    Ok(Quote { header, body })
}

} // verus!
