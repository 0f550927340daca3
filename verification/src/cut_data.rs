//! Interchange form of the material/mat parameters: the four scalar
//! fields alone.  The discriminant tag and the optional alignment data
//! do not travel; reconstruction synthesizes the fixed tag and leaves
//! the alignment absent.

use vstd::prelude::*;

use crate::domain::CutData;
use crate::domain::CutDataV;
use crate::domain::FileType;

verus! {

#[derive(Clone, Copy, Debug, PartialEq, Eq, Structural)]
pub struct CutDataDto {
    pub mat_id: u32,
    pub cut_width: u32,
    pub cut_height: u32,
    pub seam_allowance_width: u32,
}

impl DeepView for CutDataDto {
    type V = CutDataDto;

    open spec fn deep_view(&self) -> CutDataDto {
        *self
    }
}

/// The interchange form of the material parameters: the four scalars.
pub open spec fn cut_data_to_dto(c: CutDataV) -> CutDataDto {
    CutDataDto {
        mat_id: c.mat_id,
        cut_width: c.cut_width,
        cut_height: c.cut_height,
        seam_allowance_width: c.seam_allowance_width,
    }
}

/// The domain form of the interchange material parameters: the fixed
/// cut tag is synthesized and the alignment is absent.
pub open spec fn dto_to_cut_data(d: CutDataDto) -> CutDataV {
    CutDataV {
        file_type: FileType::Cut,
        mat_id: d.mat_id,
        cut_width: d.cut_width,
        cut_height: d.cut_height,
        seam_allowance_width: d.seam_allowance_width,
        alignment: None,
    }
}

/// The material parameters as reconstruction leaves them: the scalars
/// kept, the tag fixed to `Cut`, the alignment dropped.
pub open spec fn normalize_cut_data(c: CutDataV) -> CutDataV {
    CutDataV { file_type: FileType::Cut, alignment: None, ..c }
}

impl CutDataDto {
    pub fn from(cut_data: &CutData) -> (r: CutDataDto)
        ensures
            r == cut_data_to_dto(cut_data.deep_view()),
    {
        CutDataDto {
            mat_id: cut_data.mat_id,
            cut_width: cut_data.cut_width,
            cut_height: cut_data.cut_height,
            seam_allowance_width: cut_data.seam_allowance_width,
        }
    }

    pub fn into(self) -> (r: CutData)
        ensures
            r.deep_view() == dto_to_cut_data(self),
    {
        let r = CutData {
            file_type: FileType::Cut,
            mat_id: self.mat_id,
            cut_width: self.cut_width,
            cut_height: self.cut_height,
            seam_allowance_width: self.seam_allowance_width,
            alignment: None,
        };
        proof {
            assert(r.deep_view() =~= dto_to_cut_data(self));
        }
        r
    }
}

/// Converting the material parameters to the interchange form and back
/// keeps the four scalars, fixes the tag to `Cut`, and drops the
/// alignment.
pub proof fn lemma_cut_data_round_trip(c: CutDataV)
    ensures
        dto_to_cut_data(cut_data_to_dto(c)) == normalize_cut_data(c),
{
    assert(dto_to_cut_data(cut_data_to_dto(c)) =~= normalize_cut_data(c));
}

} // verus!
