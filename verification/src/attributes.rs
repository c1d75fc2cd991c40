//! Bit decomposition of the packed 8-byte TD-attributes field.
//!
//! The eight raw bytes form one 64-bit little-endian word whose bits are
//! grouped into three ranges: TUD (bits 0-7), SEC (bits 8-31) and OTHER
//! (bits 32-63). Every bit pattern is representable, so decomposition is a
//! total function; reserved ranges are surfaced as plain integers rather than
//! dropped, since they are diagnostic.

use vstd::prelude::*;

verus! {

/// The TUD group of the TD-attributes word: bits 0-7.
#[derive(Clone, Copy, Debug, PartialEq, Eq, Structural)]
pub struct TudView {
    /// Bit 0: the trust domain runs with debugging enabled.
    pub debug: bool,
    /// Bits 1-7, a 7-bit reserved range.
    pub reserved: u8,
}

/// The SEC group of the TD-attributes word: bits 8-31.
///
/// Bits 28-29 are not named by the vendor decomposition; the gap between
/// `sept_ve_disable` and `pks` is kept rather than absorbed into a neighbour.
#[derive(Clone, Copy, Debug, PartialEq, Eq, Structural)]
pub struct SecView {
    /// Bits 8-26, a 19-bit reserved range.
    pub reserved: u32,
    /// Bit 27: disable EPT-violation #VE delivery.
    pub sept_ve_disable: bool,
    /// Bit 30: protection keys for supervisor pages.
    pub pks: bool,
    /// Bit 31: key locker.
    pub kl: bool,
}

/// The OTHER group of the TD-attributes word: bits 32-63.
#[derive(Clone, Copy, Debug, PartialEq, Eq, Structural)]
pub struct OtherView {
    /// Bits 32-62, a 31-bit reserved range.
    pub reserved: u32,
    /// Bit 63: performance monitoring.
    pub perfmon: bool,
}

/// Decoded view over the raw 8-byte TD-attributes field. Derived for
/// display, never stored back.
#[derive(Clone, Copy, Debug, PartialEq, Eq, Structural)]
pub struct TdAttributesView {
    pub tud: TudView,
    pub sec: SecView,
    pub other: OtherView,
}

/// The packed 64-bit attribute word: the 8 raw bytes read little-endian.
pub open spec fn attr_word(a: Seq<u8>) -> u64
    recommends
        a.len() == 8,
{
    vstd::bytes::spec_u64_from_le_bytes(a)
}

/// What a correct decomposition of the 8 bytes `a` looks like: each named
/// flag is the fixed bit range of the attribute word that the vendor layout
/// assigns to it.
pub open spec fn attributes_match(r: TdAttributesView, a: Seq<u8>) -> bool {
    let w = attr_word(a);
    &&& r.tud.debug == ((w & 1) == 1)
    &&& r.tud.reserved == ((w >> 1) & 0x7f) as u8
    &&& r.sec.reserved == ((w >> 8) & 0x7ffff) as u32
    &&& r.sec.sept_ve_disable == (((w >> 27) & 1) == 1)
    &&& r.sec.pks == (((w >> 30) & 1) == 1)
    &&& r.sec.kl == (((w >> 31) & 1) == 1)
    &&& r.other.reserved == ((w >> 32) & 0x7fff_ffff) as u32
    &&& r.other.perfmon == (((w >> 63) & 1) == 1)
}

/// Decompose the raw 8-byte TD-attributes field into its named flag groups.
/// Total: every bit pattern decodes.
pub fn extract_tdattributes_info(tdattributes: &[u8]) -> (r: TdAttributesView)
    requires
        tdattributes@.len() == 8,
    ensures
        attributes_match(r, tdattributes@),
{
    let w = vstd::bytes::u64_from_le_bytes(tdattributes);
    TdAttributesView {
        tud: TudView { debug: (w & 1) == 1, reserved: ((w >> 1) & 0x7f) as u8 },
        sec: SecView {
            reserved: ((w >> 8) & 0x7ffff) as u32,
            sept_ve_disable: ((w >> 27) & 1) == 1,
            pks: ((w >> 30) & 1) == 1,
            kl: ((w >> 31) & 1) == 1,
        },
        other: OtherView {
            reserved: ((w >> 32) & 0x7fff_ffff) as u32,
            perfmon: ((w >> 63) & 1) == 1,
        },
    }
}

/// Law: bit decomposition is a pure function of the 8 input bytes — any two
/// views that correctly decompose the same bytes are identical.
pub proof fn lemma_decomposition_deterministic(
    a: Seq<u8>,
    r1: TdAttributesView,
    r2: TdAttributesView,
)
    requires
        a.len() == 8,
        attributes_match(r1, a),
        attributes_match(r2, a),
    ensures
        r1 == r2,
{
    assert(r1.tud == r2.tud);
    assert(r1.sec == r2.sec);
    assert(r1.other == r2.other);
}

} // verus!
