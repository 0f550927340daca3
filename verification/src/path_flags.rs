//! Interchange form of a path's tool flags: a fixed-shape record of
//! named booleans, one per enumerated flag constant.
//!
//! The mapping is a closed two-way table over the enumerated constants
//! below.  Bits outside [`PATH_TOOL_MASK`] are dropped when producing
//! the record, and building the bit set back sets only enumerated bits.

use vstd::prelude::*;

verus! {

pub const PATH_OPEN: u32 = 0x0001;
pub const TOOL_CUT: u32 = 0x0002;
pub const TOOL_DRAW: u32 = 0x0004;
pub const SEAM_ALLOWANCE: u32 = 0x0008;
pub const TOOL_RHINESTONE: u32 = 0x0010;
pub const FILL: u32 = 0x0020;
pub const AUTO_ALIGN: u32 = 0x0040;
pub const TOOL_DRAW_ONLY: u32 = 0x1000;
pub const TOOL_EMBOSS: u32 = 0x2000;
pub const TOOL_FOIL: u32 = 0x4000;
pub const TOOL_PERFORATING: u32 = 0x8000;

/// The union of all enumerated path tool flags.
pub const PATH_TOOL_MASK: u32 = 0xF07F;

#[derive(Clone, Copy, Debug, PartialEq, Eq, Structural)]
pub struct PathFlagsDto {
    pub open: bool,
    pub fill: bool,
    pub seam_allowance: bool,
    pub auto_align: bool,
    pub tool_cut: bool,
    pub tool_draw: bool,
    pub tool_draw_only: bool,
    pub tool_rhinestone: bool,
    pub tool_emboss: bool,
    pub tool_foil: bool,
    pub tool_perforating: bool,
}

impl DeepView for PathFlagsDto {
    type V = PathFlagsDto;

    open spec fn deep_view(&self) -> PathFlagsDto {
        *self
    }
}

/// The named-boolean record of a tool bit set: each field tests
/// membership of its flag constant.
pub open spec fn path_flags_of(tool: u32) -> PathFlagsDto {
    PathFlagsDto {
        open: tool & PATH_OPEN != 0,
        fill: tool & FILL != 0,
        seam_allowance: tool & SEAM_ALLOWANCE != 0,
        auto_align: tool & AUTO_ALIGN != 0,
        tool_cut: tool & TOOL_CUT != 0,
        tool_draw: tool & TOOL_DRAW != 0,
        tool_draw_only: tool & TOOL_DRAW_ONLY != 0,
        tool_rhinestone: tool & TOOL_RHINESTONE != 0,
        tool_emboss: tool & TOOL_EMBOSS != 0,
        tool_foil: tool & TOOL_FOIL != 0,
        tool_perforating: tool & TOOL_PERFORATING != 0,
    }
}

/// The bit set of a named-boolean record: the union of exactly those
/// enumerated constants whose boolean is true.
pub open spec fn path_flags_bits(f: PathFlagsDto) -> u32 {
    (if f.open { PATH_OPEN } else { 0 }) | (if f.fill { FILL } else { 0 })
        | (if f.seam_allowance { SEAM_ALLOWANCE } else { 0 })
        | (if f.auto_align { AUTO_ALIGN } else { 0 }) | (if f.tool_cut { TOOL_CUT } else { 0 })
        | (if f.tool_draw { TOOL_DRAW } else { 0 })
        | (if f.tool_draw_only { TOOL_DRAW_ONLY } else { 0 })
        | (if f.tool_rhinestone { TOOL_RHINESTONE } else { 0 })
        | (if f.tool_emboss { TOOL_EMBOSS } else { 0 }) | (if f.tool_foil { TOOL_FOIL } else { 0 })
        | (if f.tool_perforating { TOOL_PERFORATING } else { 0 })
}

impl PathFlagsDto {
    pub fn from(tool: u32) -> (r: PathFlagsDto)
        ensures
            r == path_flags_of(tool),
    {
        PathFlagsDto {
            open: tool & PATH_OPEN != 0,
            fill: tool & FILL != 0,
            seam_allowance: tool & SEAM_ALLOWANCE != 0,
            auto_align: tool & AUTO_ALIGN != 0,
            tool_cut: tool & TOOL_CUT != 0,
            tool_draw: tool & TOOL_DRAW != 0,
            tool_draw_only: tool & TOOL_DRAW_ONLY != 0,
            tool_rhinestone: tool & TOOL_RHINESTONE != 0,
            tool_emboss: tool & TOOL_EMBOSS != 0,
            tool_foil: tool & TOOL_FOIL != 0,
            tool_perforating: tool & TOOL_PERFORATING != 0,
        }
    }

    pub fn into(self) -> (r: u32)
        ensures
            r == path_flags_bits(self),
    {
        (if self.open { PATH_OPEN } else { 0 }) | (if self.fill { FILL } else { 0 })
            | (if self.seam_allowance { SEAM_ALLOWANCE } else { 0 })
            | (if self.auto_align { AUTO_ALIGN } else { 0 })
            | (if self.tool_cut { TOOL_CUT } else { 0 })
            | (if self.tool_draw { TOOL_DRAW } else { 0 })
            | (if self.tool_draw_only { TOOL_DRAW_ONLY } else { 0 })
            | (if self.tool_rhinestone { TOOL_RHINESTONE } else { 0 })
            | (if self.tool_emboss { TOOL_EMBOSS } else { 0 })
            | (if self.tool_foil { TOOL_FOIL } else { 0 })
            | (if self.tool_perforating { TOOL_PERFORATING } else { 0 })
    }
}

/// Flag closure: turning any tool bit set into the named-boolean record
/// and back yields exactly the enumerated bits of the input.  Bits drawn
/// only from the enumerated constants round-trip exactly; any bit
/// outside the enumerated set is lost.
pub proof fn lemma_path_flags_closure(tool: u32)
    ensures
        path_flags_bits(path_flags_of(tool)) == tool & PATH_TOOL_MASK,
{
    assert((if tool & 0x0001u32 != 0 {
        0x0001u32
    } else {
        0u32
    }) | (if tool & 0x0020u32 != 0 {
        0x0020u32
    } else {
        0u32
    }) | (if tool & 0x0008u32 != 0 {
        0x0008u32
    } else {
        0u32
    }) | (if tool & 0x0040u32 != 0 {
        0x0040u32
    } else {
        0u32
    }) | (if tool & 0x0002u32 != 0 {
        0x0002u32
    } else {
        0u32
    }) | (if tool & 0x0004u32 != 0 {
        0x0004u32
    } else {
        0u32
    }) | (if tool & 0x1000u32 != 0 {
        0x1000u32
    } else {
        0u32
    }) | (if tool & 0x0010u32 != 0 {
        0x0010u32
    } else {
        0u32
    }) | (if tool & 0x2000u32 != 0 {
        0x2000u32
    } else {
        0u32
    }) | (if tool & 0x4000u32 != 0 {
        0x4000u32
    } else {
        0u32
    }) | (if tool & 0x8000u32 != 0 {
        0x8000u32
    } else {
        0u32
    }) == tool & 0xF07Fu32) by (bit_vector);
}

/// A bit set drawn only from the enumerated constants survives the
/// round trip through the named-boolean record unchanged.
pub proof fn lemma_path_flags_round_trip(tool: u32)
    requires
        tool & !PATH_TOOL_MASK == 0,
    ensures
        path_flags_bits(path_flags_of(tool)) == tool,
{
    lemma_path_flags_closure(tool);
    assert(tool & 0xF07Fu32 == tool) by (bit_vector)
        requires
            tool & !0xF07Fu32 == 0,
    ;
}

} // verus!
