//! Interchange form of an outline: a closed, two-armed tagged union.
//! The arm (straight segments vs. bezier segments) is carried as an
//! explicit discriminant so that decoding never infers the variant from
//! the shape of the payload.  The mapping is 1:1 and order-preserving.

use vstd::prelude::*;

use crate::domain::Outline;
use crate::domain::OutlineV;
use crate::domain::SegmentBezier;
use crate::domain::SegmentLine;
use crate::segment_bezier::dto_to_segment_bezier;
use crate::segment_bezier::segment_bezier_to_dto;
use crate::segment_bezier::SegmentBezierDto;
use crate::segment_line::dto_to_segment_line;
use crate::segment_line::segment_line_to_dto;
use crate::segment_line::SegmentLineDto;

verus! {

#[derive(Clone, Debug, PartialEq)]
pub enum OutlineDto {
    Line { segments: Vec<SegmentLineDto> },
    Bezier { segments: Vec<SegmentBezierDto> },
}

#[verifier::ext_equal]
pub ghost enum OutlineDtoV {
    Line { segments: Seq<SegmentLineDto> },
    Bezier { segments: Seq<SegmentBezierDto> },
}

impl DeepView for OutlineDto {
    type V = OutlineDtoV;

    open spec fn deep_view(&self) -> OutlineDtoV {
        match self {
            OutlineDto::Line { segments } => OutlineDtoV::Line { segments: segments.deep_view() },
            OutlineDto::Bezier { segments } => OutlineDtoV::Bezier {
                segments: segments.deep_view(),
            },
        }
    }
}

/// The interchange form of a domain outline: the same arm, each segment
/// converted, in the same order.
pub open spec fn outline_to_dto(o: OutlineV) -> OutlineDtoV {
    match o {
        OutlineV::Line(segments) => OutlineDtoV::Line {
            segments: segments.map_values(|s: SegmentLine| segment_line_to_dto(s)),
        },
        OutlineV::Bezier(segments) => OutlineDtoV::Bezier {
            segments: segments.map_values(|s: SegmentBezier| segment_bezier_to_dto(s)),
        },
    }
}

/// The domain form of an interchange outline.
pub open spec fn dto_to_outline(d: OutlineDtoV) -> OutlineV {
    match d {
        OutlineDtoV::Line { segments } => OutlineV::Line(
            segments.map_values(|s: SegmentLineDto| dto_to_segment_line(s)),
        ),
        OutlineDtoV::Bezier { segments } => OutlineV::Bezier(
            segments.map_values(|s: SegmentBezierDto| dto_to_segment_bezier(s)),
        ),
    }
}

impl OutlineDto {
    pub fn from(outline: &Outline) -> (r: OutlineDto)
        ensures
            r.deep_view() == outline_to_dto(outline.deep_view()),
    {
        match outline {
            Outline::Line(segments) => {
                let mut out: Vec<SegmentLineDto> = Vec::new();
                for i in 0..segments.len()
                    invariant
                        out@.len() == i,
                        forall|j: int|
                            0 <= j < i ==> out@[j] == segment_line_to_dto(#[trigger] segments@[j]),
                {
                    out.push(SegmentLineDto::from(&segments[i]));
                }
                let r = OutlineDto::Line { segments: out };
                proof {
                    assert(r.deep_view() =~= outline_to_dto(outline.deep_view()));
                }
                r
            },
            Outline::Bezier(segments) => {
                let mut out: Vec<SegmentBezierDto> = Vec::new();
                for i in 0..segments.len()
                    invariant
                        out@.len() == i,
                        forall|j: int|
                            0 <= j < i ==> out@[j] == segment_bezier_to_dto(
                                #[trigger] segments@[j],
                            ),
                {
                    out.push(SegmentBezierDto::from(&segments[i]));
                }
                let r = OutlineDto::Bezier { segments: out };
                proof {
                    assert(r.deep_view() =~= outline_to_dto(outline.deep_view()));
                }
                r
            },
        }
    }

    pub fn into(&self) -> (r: Outline)
        ensures
            r.deep_view() == dto_to_outline(self.deep_view()),
    {
        match self {
            OutlineDto::Line { segments } => {
                let mut out: Vec<SegmentLine> = Vec::new();
                for i in 0..segments.len()
                    invariant
                        out@.len() == i,
                        forall|j: int|
                            0 <= j < i ==> out@[j] == dto_to_segment_line(#[trigger] segments@[j]),
                {
                    out.push(segments[i].into());
                }
                let r = Outline::Line(out);
                proof {
                    assert(r.deep_view() =~= dto_to_outline(self.deep_view()));
                }
                r
            },
            OutlineDto::Bezier { segments } => {
                let mut out: Vec<SegmentBezier> = Vec::new();
                for i in 0..segments.len()
                    invariant
                        out@.len() == i,
                        forall|j: int|
                            0 <= j < i ==> out@[j] == dto_to_segment_bezier(
                                #[trigger] segments@[j],
                            ),
                {
                    out.push(segments[i].into());
                }
                let r = Outline::Bezier(out);
                proof {
                    assert(r.deep_view() =~= dto_to_outline(self.deep_view()));
                }
                r
            },
        }
    }
}

/// Converting an outline to the interchange form and back is the
/// identity: the arm is kept and every segment is copied exactly.
pub proof fn lemma_outline_round_trip(o: OutlineV)
    ensures
        dto_to_outline(outline_to_dto(o)) == o,
{
    match o {
        OutlineV::Line(segments) => {
            assert(dto_to_outline(outline_to_dto(o)) =~= o);
        },
        OutlineV::Bezier(segments) => {
            assert(dto_to_outline(outline_to_dto(o)) =~= o);
        },
    }
}

} // verus!
