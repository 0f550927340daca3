//! Interchange form of a cubic bezier segment: two control points and
//! the end point.

use vstd::prelude::*;

use crate::domain::SegmentBezier;
use crate::point::dto_to_point;
use crate::point::point_to_dto;
use crate::point::PointDto;

verus! {

#[derive(Clone, Copy, Debug, PartialEq, Eq, Structural)]
pub struct SegmentBezierDto {
    pub control1: PointDto,
    pub control2: PointDto,
    pub end: PointDto,
}

impl DeepView for SegmentBezierDto {
    type V = SegmentBezierDto;

    open spec fn deep_view(&self) -> SegmentBezierDto {
        *self
    }
}

/// The interchange form of a bezier segment.
pub open spec fn segment_bezier_to_dto(s: SegmentBezier) -> SegmentBezierDto {
    SegmentBezierDto {
        control1: point_to_dto(s.control1),
        control2: point_to_dto(s.control2),
        end: point_to_dto(s.end),
    }
}

/// The domain form of an interchange bezier segment.
pub open spec fn dto_to_segment_bezier(d: SegmentBezierDto) -> SegmentBezier {
    SegmentBezier {
        control1: dto_to_point(d.control1),
        control2: dto_to_point(d.control2),
        end: dto_to_point(d.end),
    }
}

impl SegmentBezierDto {
    pub fn from(segment: &SegmentBezier) -> (r: SegmentBezierDto)
        ensures
            r == segment_bezier_to_dto(*segment),
    {
        SegmentBezierDto {
            control1: PointDto::from(&segment.control1),
            control2: PointDto::from(&segment.control2),
            end: PointDto::from(&segment.end),
        }
    }

    pub fn into(self) -> (r: SegmentBezier)
        ensures
            r == dto_to_segment_bezier(self),
    {
        SegmentBezier {
            control1: self.control1.into(),
            control2: self.control2.into(),
            end: self.end.into(),
        }
    }
}

} // verus!
