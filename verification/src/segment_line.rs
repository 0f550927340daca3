//! Interchange form of a straight segment: the end point alone.

use vstd::prelude::*;

use crate::domain::SegmentLine;
use crate::point::dto_to_point;
use crate::point::point_to_dto;
use crate::point::PointDto;

verus! {

#[derive(Clone, Copy, Debug, PartialEq, Eq, Structural)]
pub struct SegmentLineDto {
    pub end: PointDto,
}

impl DeepView for SegmentLineDto {
    type V = SegmentLineDto;

    open spec fn deep_view(&self) -> SegmentLineDto {
        *self
    }
}

/// The interchange form of a straight segment.
pub open spec fn segment_line_to_dto(s: SegmentLine) -> SegmentLineDto {
    SegmentLineDto { end: point_to_dto(s.end) }
}

/// The domain form of an interchange straight segment.
pub open spec fn dto_to_segment_line(d: SegmentLineDto) -> SegmentLine {
    SegmentLine { end: dto_to_point(d.end) }
}

impl SegmentLineDto {
    pub fn from(segment: &SegmentLine) -> (r: SegmentLineDto)
        ensures
            r == segment_line_to_dto(*segment),
    {
        SegmentLineDto { end: PointDto::from(&segment.end) }
    }

    pub fn into(self) -> (r: SegmentLine)
        ensures
            r == dto_to_segment_line(self),
    {
        SegmentLine { end: self.end.into() }
    }
}

} // verus!
