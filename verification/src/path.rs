//! Interchange form of a path.  An interchange path always carries
//! geometry: producing it from a domain path without a shape fails with
//! a local "no shape" signal (consumed by the piece mapper as a filter,
//! never surfaced further), and reconstruction always synthesizes a
//! shape while defaulting the unrepresentable rhinestone fields.

use vstd::prelude::*;

use crate::domain::Outline;
use crate::domain::OutlineV;
use crate::domain::Path;
use crate::domain::PathShape;
use crate::domain::PathShapeV;
use crate::domain::PathV;
use crate::outline::dto_to_outline;
use crate::outline::lemma_outline_round_trip;
use crate::outline::outline_to_dto;
use crate::outline::OutlineDto;
use crate::outline::OutlineDtoV;
use crate::path_flags::path_flags_bits;
use crate::path_flags::path_flags_of;
use crate::path_flags::PathFlagsDto;
use crate::path_flags::PATH_TOOL_MASK;
use crate::point::dto_to_point;
use crate::point::point_to_dto;
use crate::point::PointDto;

verus! {

#[derive(Clone, Debug, PartialEq)]
pub struct PathDto {
    pub flags: PathFlagsDto,
    pub start: PointDto,
    pub outlines: Vec<OutlineDto>,
}

#[verifier::ext_equal]
pub ghost struct PathDtoV {
    pub flags: PathFlagsDto,
    pub start: PointDto,
    pub outlines: Seq<OutlineDtoV>,
}

impl DeepView for PathDto {
    type V = PathDtoV;

    open spec fn deep_view(&self) -> PathDtoV {
        PathDtoV {
            flags: self.flags,
            start: self.start.deep_view(),
            outlines: self.outlines.deep_view(),
        }
    }
}

/// The interchange form of a domain path: `None` exactly when the path
/// has no shape (the "exclude this path" signal).
pub open spec fn path_to_dto(p: PathV) -> Option<PathDtoV> {
    match p.shape {
        Some(shape) => Some(
            PathDtoV {
                flags: path_flags_of(p.tool),
                start: point_to_dto(shape.start),
                outlines: shape.outlines.map_values(|o: OutlineV| outline_to_dto(o)),
            },
        ),
        None => None,
    }
}

/// The domain form of an interchange path: the shape is synthesized
/// from the required start point and outlines; the rhinestone diameter
/// is absent and the rhinestone list empty.
pub open spec fn dto_to_path(d: PathDtoV) -> PathV {
    PathV {
        tool: path_flags_bits(d.flags),
        shape: Some(
            PathShapeV {
                start: dto_to_point(d.start),
                outlines: d.outlines.map_values(|o: OutlineDtoV| dto_to_outline(o)),
            },
        ),
        rhinestone_diameter: None,
        rhinestones: Seq::empty(),
    }
}

/// A shaped path reconstructed from its interchange form: the tool bits
/// are narrowed to the enumerated set, the geometry is kept exactly,
/// and the rhinestone fields are defaulted.
pub open spec fn normalize_path(p: PathV) -> PathV {
    PathV {
        tool: p.tool & PATH_TOOL_MASK,
        shape: p.shape,
        rhinestone_diameter: None,
        rhinestones: Seq::empty(),
    }
}

impl PathDto {
    pub fn try_from(path: &Path) -> (r: Result<PathDto, ()>)
        ensures
            r is Ok <==> path.deep_view().shape is Some,
            r matches Ok(d) ==> Some(d.deep_view()) == path_to_dto(path.deep_view()),
            r is Err <==> path_to_dto(path.deep_view()) is None,
    {
        match &path.shape {
            None => Err(()),
            Some(shape) => {
                let mut outlines: Vec<OutlineDto> = Vec::new();
                for i in 0..shape.outlines.len()
                    invariant
                        outlines@.len() == i,
                        forall|j: int|
                            0 <= j < i ==> outlines@[j].deep_view() == outline_to_dto(
                                #[trigger] shape.outlines@[j].deep_view(),
                            ),
                {
                    outlines.push(OutlineDto::from(&shape.outlines[i]));
                }
                let d = PathDto {
                    flags: PathFlagsDto::from(path.tool),
                    start: PointDto::from(&shape.start),
                    outlines,
                };
                proof {
                    assert(d.deep_view() =~= path_to_dto(path.deep_view()).unwrap());
                }
                Ok(d)
            },
        }
    }

    pub fn into(&self) -> (r: Path)
        ensures
            r.deep_view() == dto_to_path(self.deep_view()),
    {
        let mut outlines: Vec<Outline> = Vec::new();
        for i in 0..self.outlines.len()
            invariant
                outlines@.len() == i,
                forall|j: int|
                    0 <= j < i ==> outlines@[j].deep_view() == dto_to_outline(
                        #[trigger] self.outlines@[j].deep_view(),
                    ),
        {
            outlines.push(OutlineDto::into(&self.outlines[i]));
        }
        let r = Path {
            tool: PathFlagsDto::into(self.flags),
            shape: Some(PathShape { start: self.start.into(), outlines }),
            rhinestone_diameter: None,
            rhinestones: Vec::new(),
        };
        proof {
            assert(r.deep_view() =~= dto_to_path(self.deep_view()));
        }
        r
    }
}

/// A path that the interchange form can carry without loss: it has a
/// shape, carries no rhinestone data, and its tool bits are drawn only
/// from the enumerated constants.
pub open spec fn representable_path(p: PathV) -> bool {
    &&& p.shape is Some
    &&& p.rhinestone_diameter is None
    &&& p.rhinestones.len() == 0
    &&& p.tool & PATH_TOOL_MASK == p.tool
}

/// On a representable path, normalization changes nothing.
pub proof fn lemma_normalize_representable_path(p: PathV)
    requires
        representable_path(p),
    ensures
        normalize_path(p) == p,
{
    assert(normalize_path(p) =~= p);
}

/// Converting a shaped path to the interchange form and back keeps the
/// geometry exactly, narrows the tool bits to the enumerated set, and
/// defaults the rhinestone fields.
pub proof fn lemma_path_round_trip(p: PathV)
    requires
        p.shape is Some,
    ensures
        dto_to_path(path_to_dto(p).unwrap()) == normalize_path(p),
{
    crate::path_flags::lemma_path_flags_closure(p.tool);
    let shape = p.shape.unwrap();
    let outlines = shape.outlines;
    assert forall|i: int| 0 <= i < outlines.len() implies dto_to_outline(
        outline_to_dto(#[trigger] outlines[i]),
    ) == outlines[i] by {
        lemma_outline_round_trip(outlines[i]);
    }
    assert(dto_to_path(path_to_dto(p).unwrap()) =~~= normalize_path(p));
}

} // verus!
