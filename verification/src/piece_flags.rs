//! Interchange form of a piece's restriction flags: a fixed-shape
//! record of named booleans, one per enumerated flag constant.
//!
//! Closed two-way table like the path tool flags: bits outside
//! [`PIECE_RESTRICTIONS_MASK`] are dropped, and rebuilding the bit set
//! sets only enumerated bits.

use vstd::prelude::*;

verus! {

pub const LICENSE_DESIGN: u32 = 0x0001;
pub const SEAM_ALLOWANCE: u32 = 0x0002;
pub const PROHIBITION_OF_SEAM_ALLOWANCE_SETTING: u32 = 0x0004;
pub const NO_ASPECT_RATIO_CHANGE_PROHIBITED: u32 = 0x0020;
pub const TEST_PATTERN: u32 = 0x0040;
pub const PROHIBITION_OF_EDIT: u32 = 0x0080;
pub const PROHIBITION_OF_TOOL: u32 = 0x0100;

/// The union of all enumerated piece restriction flags.
pub const PIECE_RESTRICTIONS_MASK: u32 = 0x01E7;

#[derive(Clone, Copy, Debug, PartialEq, Eq, Structural)]
pub struct PieceFlagsDto {
    pub licensed: bool,
    pub seam_allowance_enabled: bool,
    pub seam_allowance_locked: bool,
    pub aspect_ratio_locked: bool,
    pub test_pattern: bool,
    pub path_locked: bool,
    pub tool_locked: bool,
}

impl DeepView for PieceFlagsDto {
    type V = PieceFlagsDto;

    open spec fn deep_view(&self) -> PieceFlagsDto {
        *self
    }
}

/// The named-boolean record of a restriction bit set.
pub open spec fn piece_flags_of(restrictions: u32) -> PieceFlagsDto {
    PieceFlagsDto {
        licensed: restrictions & LICENSE_DESIGN != 0,
        seam_allowance_enabled: restrictions & SEAM_ALLOWANCE != 0,
        seam_allowance_locked: restrictions & PROHIBITION_OF_SEAM_ALLOWANCE_SETTING != 0,
        aspect_ratio_locked: restrictions & NO_ASPECT_RATIO_CHANGE_PROHIBITED != 0,
        test_pattern: restrictions & TEST_PATTERN != 0,
        path_locked: restrictions & PROHIBITION_OF_EDIT != 0,
        tool_locked: restrictions & PROHIBITION_OF_TOOL != 0,
    }
}

/// The bit set of a named-boolean record: the union of exactly those
/// enumerated constants whose boolean is true.
pub open spec fn piece_flags_bits(f: PieceFlagsDto) -> u32 {
    (if f.licensed { LICENSE_DESIGN } else { 0 })
        | (if f.seam_allowance_enabled { SEAM_ALLOWANCE } else { 0 })
        | (if f.seam_allowance_locked { PROHIBITION_OF_SEAM_ALLOWANCE_SETTING } else { 0 })
        | (if f.aspect_ratio_locked { NO_ASPECT_RATIO_CHANGE_PROHIBITED } else { 0 })
        | (if f.test_pattern { TEST_PATTERN } else { 0 })
        | (if f.path_locked { PROHIBITION_OF_EDIT } else { 0 })
        | (if f.tool_locked { PROHIBITION_OF_TOOL } else { 0 })
}

impl PieceFlagsDto {
    pub fn from(restrictions: u32) -> (r: PieceFlagsDto)
        ensures
            r == piece_flags_of(restrictions),
    {
        PieceFlagsDto {
            licensed: restrictions & LICENSE_DESIGN != 0,
            seam_allowance_enabled: restrictions & SEAM_ALLOWANCE != 0,
            seam_allowance_locked: restrictions & PROHIBITION_OF_SEAM_ALLOWANCE_SETTING != 0,
            aspect_ratio_locked: restrictions & NO_ASPECT_RATIO_CHANGE_PROHIBITED != 0,
            test_pattern: restrictions & TEST_PATTERN != 0,
            path_locked: restrictions & PROHIBITION_OF_EDIT != 0,
            tool_locked: restrictions & PROHIBITION_OF_TOOL != 0,
        }
    }

    pub fn into(self) -> (r: u32)
        ensures
            r == piece_flags_bits(self),
    {
        (if self.licensed { LICENSE_DESIGN } else { 0 })
            | (if self.seam_allowance_enabled { SEAM_ALLOWANCE } else { 0 })
            | (if self.seam_allowance_locked { PROHIBITION_OF_SEAM_ALLOWANCE_SETTING } else { 0 })
            | (if self.aspect_ratio_locked { NO_ASPECT_RATIO_CHANGE_PROHIBITED } else { 0 })
            | (if self.test_pattern { TEST_PATTERN } else { 0 })
            | (if self.path_locked { PROHIBITION_OF_EDIT } else { 0 })
            | (if self.tool_locked { PROHIBITION_OF_TOOL } else { 0 })
    }
}

/// Flag closure: turning any restriction bit set into the named-boolean
/// record and back yields exactly the enumerated bits of the input.
pub proof fn lemma_piece_flags_closure(restrictions: u32)
    ensures
        piece_flags_bits(piece_flags_of(restrictions)) == restrictions & PIECE_RESTRICTIONS_MASK,
{
    assert((if restrictions & 0x0001u32 != 0 {
        0x0001u32
    } else {
        0u32
    }) | (if restrictions & 0x0002u32 != 0 {
        0x0002u32
    } else {
        0u32
    }) | (if restrictions & 0x0004u32 != 0 {
        0x0004u32
    } else {
        0u32
    }) | (if restrictions & 0x0020u32 != 0 {
        0x0020u32
    } else {
        0u32
    }) | (if restrictions & 0x0040u32 != 0 {
        0x0040u32
    } else {
        0u32
    }) | (if restrictions & 0x0080u32 != 0 {
        0x0080u32
    } else {
        0u32
    }) | (if restrictions & 0x0100u32 != 0 {
        0x0100u32
    } else {
        0u32
    }) == restrictions & 0x01E7u32) by (bit_vector);
}

/// A bit set drawn only from the enumerated constants survives the
/// round trip through the named-boolean record unchanged.
pub proof fn lemma_piece_flags_round_trip(restrictions: u32)
    requires
        restrictions & !PIECE_RESTRICTIONS_MASK == 0,
    ensures
        piece_flags_bits(piece_flags_of(restrictions)) == restrictions,
{
    lemma_piece_flags_closure(restrictions);
    assert(restrictions & 0x01E7u32 == restrictions) by (bit_vector)
        requires
            restrictions & !0x01E7u32 == 0,
    ;
}

} // verus!
