//! Interchange form of a 2D coordinate pair.  The mapping is 1:1 and
//! exact in both directions.

use vstd::prelude::*;

use crate::domain::Point;

verus! {

#[derive(Clone, Copy, Debug, PartialEq, Eq, Structural)]
pub struct PointDto {
    pub x: i32,
    pub y: i32,
}

impl DeepView for PointDto {
    type V = PointDto;

    open spec fn deep_view(&self) -> PointDto {
        *self
    }
}

/// The interchange form of a domain point.
pub open spec fn point_to_dto(p: Point) -> PointDto {
    PointDto { x: p.x, y: p.y }
}

/// The domain form of an interchange point.
pub open spec fn dto_to_point(d: PointDto) -> Point {
    Point { x: d.x, y: d.y }
}

impl PointDto {
    pub fn from(point: &Point) -> (r: PointDto)
        ensures
            r == point_to_dto(*point),
    {
        PointDto { x: point.x, y: point.y }
    }

    pub fn into(self) -> (r: Point)
        ensures
            r == dto_to_point(self),
    {
        Point { x: self.x, y: self.y }
    }
}

/// Converting a point to the interchange form and back is the identity:
/// both directions copy the two coordinates exactly.
pub proof fn lemma_point_round_trip(p: Point)
    ensures
        dto_to_point(point_to_dto(p)) == p,
{
}

} // verus!
