//! Hints on the intended use of a surface.

use vstd::prelude::*;
use crate::constants::VA_SURFACE_ATTRIB_USAGE_HINT_DECODER;
use crate::constants::VA_SURFACE_ATTRIB_USAGE_HINT_DISPLAY;
use crate::constants::VA_SURFACE_ATTRIB_USAGE_HINT_ENCODER;
use crate::constants::VA_SURFACE_ATTRIB_USAGE_HINT_EXPORT;
use crate::constants::VA_SURFACE_ATTRIB_USAGE_HINT_VPP_READ;
use crate::constants::VA_SURFACE_ATTRIB_USAGE_HINT_VPP_WRITE;

verus! {

/// Every bit that names a usage hint.
pub const USAGE_HINT_ALL: u32 = 0x0000_003f;

/// A set of usage hints, one bit each. It gives the driver a hint of the
/// intended usage of a surface so that it can optimise the allocation (e.g.
/// tiling).
#[derive(Clone, Copy, Debug)]
pub struct UsageHint {
    bits: u32,
}

impl View for UsageHint {
    type V = u32;

    closed spec fn view(&self) -> u32 {
        self.bits
    }
}

impl UsageHint {
    /// Surface used by video decoder.
    pub fn decoder() -> (hint: Self)
        ensures
            hint@ == VA_SURFACE_ATTRIB_USAGE_HINT_DECODER,
    {
        UsageHint { bits: VA_SURFACE_ATTRIB_USAGE_HINT_DECODER }
    }

    /// Surface used by video encoder.
    pub fn encoder() -> (hint: Self)
        ensures
            hint@ == VA_SURFACE_ATTRIB_USAGE_HINT_ENCODER,
    {
        UsageHint { bits: VA_SURFACE_ATTRIB_USAGE_HINT_ENCODER }
    }

    /// Surface read by video post-processing.
    pub fn vpp_read() -> (hint: Self)
        ensures
            hint@ == VA_SURFACE_ATTRIB_USAGE_HINT_VPP_READ,
    {
        UsageHint { bits: VA_SURFACE_ATTRIB_USAGE_HINT_VPP_READ }
    }

    /// Surface written by video post-processing.
    pub fn vpp_write() -> (hint: Self)
        ensures
            hint@ == VA_SURFACE_ATTRIB_USAGE_HINT_VPP_WRITE,
    {
        UsageHint { bits: VA_SURFACE_ATTRIB_USAGE_HINT_VPP_WRITE }
    }

    /// Surface used for display.
    pub fn display() -> (hint: Self)
        ensures
            hint@ == VA_SURFACE_ATTRIB_USAGE_HINT_DISPLAY,
    {
        UsageHint { bits: VA_SURFACE_ATTRIB_USAGE_HINT_DISPLAY }
    }

    /// Surface used for export to third-party APIs.
    pub fn export() -> (hint: Self)
        ensures
            hint@ == VA_SURFACE_ATTRIB_USAGE_HINT_EXPORT,
    {
        UsageHint { bits: VA_SURFACE_ATTRIB_USAGE_HINT_EXPORT }
    }

    /// The set without any hint.
    pub fn empty() -> (hint: Self)
        ensures
            hint@ == 0,
    {
        UsageHint { bits: 0 }
    }

    /// The set of all hints.
    pub fn all() -> (hint: Self)
        ensures
            hint@ == USAGE_HINT_ALL,
    {
        UsageHint { bits: USAGE_HINT_ALL }
    }

    /// The bits of this set.
    pub fn bits(&self) -> (bits: u32)
        ensures
            bits == self@,
    {
        self.bits
    }

    /// The set with exactly the bits of `bits`, unless one of them names no
    /// hint.
    pub fn from_bits(bits: u32) -> (hint: Option<Self>)
        ensures
            hint is Some <==> bits & !USAGE_HINT_ALL == 0,
            hint matches Some(h) ==> h@ == bits,
    {
        if bits & !USAGE_HINT_ALL == 0 {
            Some(UsageHint { bits })
        } else {
            None
        }
    }

    /// The set with the bits of `bits` that name a hint.
    pub fn from_bits_truncate(bits: u32) -> (hint: Self)
        ensures
            hint@ == bits & USAGE_HINT_ALL,
    {
        UsageHint { bits: bits & USAGE_HINT_ALL }
    }

    /// Whether no hint is in this set.
    pub fn is_empty(&self) -> (empty: bool)
        ensures
            empty <==> self@ == 0,
    {
        self.bits == 0
    }

    /// Whether every hint of `other` is in this set.
    pub fn contains(&self, other: UsageHint) -> (all_in: bool)
        ensures
            all_in <==> self@ & other@ == other@,
    {
        self.bits & other.bits == other.bits
    }

    /// The hints that are in this set or in `other`. The result contains
    /// both operands.
    pub fn union(self, other: UsageHint) -> (hint: Self)
        ensures
            hint@ == self@ | other@,
            hint@ & self@ == self@,
            hint@ & other@ == other@,
    {
        let a = self.bits;
        let b = other.bits;
        assert((a | b) & a == a && (a | b) & b == b) by (bit_vector);
        UsageHint { bits: a | b }
    }
}

} // verus!
