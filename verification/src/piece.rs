//! Interchange form of a piece.  Dimensions, limits, optional affine
//! transform and label pass through unchanged; restriction flags become
//! a named-boolean record; and the path list is filtered on the way to
//! the interchange form: a path without geometry is silently excluded.
//! No failure is observable at this layer.

use vstd::prelude::*;

use crate::domain::Path;
use crate::domain::PathV;
use crate::domain::Piece;
use crate::domain::PieceV;
use crate::domain::Transform;
use crate::path::dto_to_path;
use crate::path::lemma_normalize_representable_path;
use crate::path::lemma_path_round_trip;
use crate::path::normalize_path;
use crate::path::path_to_dto;
use crate::path::representable_path;
use crate::path::PathDto;
use crate::path::PathDtoV;
use crate::piece_flags::lemma_piece_flags_closure;
use crate::piece_flags::piece_flags_bits;
use crate::piece_flags::piece_flags_of;
use crate::piece_flags::PieceFlagsDto;
use crate::piece_flags::PIECE_RESTRICTIONS_MASK;
use crate::util::clone_string;

verus! {

#[derive(Clone, Debug, PartialEq)]
pub struct PieceDto {
    pub width: u32,
    pub height: u32,
    pub expansion_limit: u32,
    pub reduction_limit: u32,
    pub transform: Option<Transform>,
    pub flags: PieceFlagsDto,
    pub label: String,
    pub paths: Vec<PathDto>,
}

#[verifier::ext_equal]
pub ghost struct PieceDtoV {
    pub width: u32,
    pub height: u32,
    pub expansion_limit: u32,
    pub reduction_limit: u32,
    pub transform: Option<Transform>,
    pub flags: PieceFlagsDto,
    pub label: Seq<char>,
    pub paths: Seq<PathDtoV>,
}

impl DeepView for PieceDto {
    type V = PieceDtoV;

    open spec fn deep_view(&self) -> PieceDtoV {
        PieceDtoV {
            width: self.width,
            height: self.height,
            expansion_limit: self.expansion_limit,
            reduction_limit: self.reduction_limit,
            transform: self.transform,
            flags: self.flags,
            label: self.label.deep_view(),
            paths: self.paths.deep_view(),
        }
    }
}

/// The interchange form of a domain piece: scalar fields pass through,
/// flags are expanded to named booleans, and exactly the shaped paths
/// survive, in their original relative order.
pub open spec fn piece_to_dto(p: PieceV) -> PieceDtoV {
    PieceDtoV {
        width: p.width,
        height: p.height,
        expansion_limit: p.expansion_limit_value,
        reduction_limit: p.reduction_limit_value,
        transform: p.transform,
        flags: piece_flags_of(p.restriction_flags),
        label: p.label,
        paths: p.paths.filter_map(|q: PathV| path_to_dto(q)),
    }
}

/// The domain form of an interchange piece.
pub open spec fn dto_to_piece(d: PieceDtoV) -> PieceV {
    PieceV {
        width: d.width,
        height: d.height,
        transform: d.transform,
        expansion_limit_value: d.expansion_limit,
        reduction_limit_value: d.reduction_limit,
        restriction_flags: piece_flags_bits(d.flags),
        label: d.label,
        paths: d.paths.map_values(|q: PathDtoV| dto_to_path(q)),
    }
}

/// A piece reconstructed from its interchange form: restriction bits
/// narrowed to the enumerated set, shapeless paths gone, and every kept
/// path normalized as [`normalize_path`] says.
pub open spec fn normalize_piece(p: PieceV) -> PieceV {
    PieceV {
        width: p.width,
        height: p.height,
        transform: p.transform,
        expansion_limit_value: p.expansion_limit_value,
        reduction_limit_value: p.reduction_limit_value,
        restriction_flags: p.restriction_flags & PIECE_RESTRICTIONS_MASK,
        label: p.label,
        paths: p.paths.filter(|q: PathV| q.shape is Some).map_values(
            |q: PathV| normalize_path(q),
        ),
    }
}

impl PieceDto {
    pub fn from(piece: &Piece) -> (r: PieceDto)
        ensures
            r.deep_view() == piece_to_dto(piece.deep_view()),
    {
        let mut paths: Vec<PathDto> = Vec::new();
        for i in 0..piece.paths.len()
            invariant
                paths.deep_view() == piece.paths.deep_view().take(i as int).filter_map(
                    |q: PathV| path_to_dto(q),
                ),
        {
            proof {
                piece.paths.deep_view().lemma_filter_map_take_succ(
                    |q: PathV| path_to_dto(q),
                    i as int,
                );
            }
            match PathDto::try_from(&piece.paths[i]) {
                Ok(d) => {
                    paths.push(d);
                },
                Err(()) => {},
            }
            proof {
                assert(paths.deep_view() =~= piece.paths.deep_view().take(
                    i as int + 1,
                ).filter_map(|q: PathV| path_to_dto(q)));
            }
        }
        proof {
            assert(piece.paths.deep_view().take(piece.paths@.len() as int)
                =~= piece.paths.deep_view());
        }
        let r = PieceDto {
            width: piece.width,
            height: piece.height,
            expansion_limit: piece.expansion_limit_value,
            reduction_limit: piece.reduction_limit_value,
            transform: piece.transform,
            flags: PieceFlagsDto::from(piece.restriction_flags),
            label: clone_string(&piece.label),
            paths,
        };
        proof {
            assert(r.deep_view() =~= piece_to_dto(piece.deep_view()));
        }
        r
    }

    pub fn into(&self) -> (r: Piece)
        ensures
            r.deep_view() == dto_to_piece(self.deep_view()),
    {
        let mut paths: Vec<Path> = Vec::new();
        for i in 0..self.paths.len()
            invariant
                paths@.len() == i,
                forall|j: int|
                    0 <= j < i ==> paths@[j].deep_view() == dto_to_path(
                        #[trigger] self.paths@[j].deep_view(),
                    ),
        {
            paths.push(PathDto::into(&self.paths[i]));
        }
        let r = Piece {
            width: self.width,
            height: self.height,
            transform: self.transform,
            expansion_limit_value: self.expansion_limit,
            reduction_limit_value: self.reduction_limit,
            restriction_flags: PieceFlagsDto::into(self.flags),
            label: clone_string(&self.label),
            paths,
        };
        proof {
            assert(r.deep_view() =~= dto_to_piece(self.deep_view()));
        }
        r
    }
}

/// Mapping a path list to the interchange form and back keeps exactly
/// the shaped paths, normalized, in their original relative order.
proof fn lemma_paths_round_trip(s: Seq<PathV>)
    ensures
        s.filter_map(|q: PathV| path_to_dto(q)).map_values(|d: PathDtoV| dto_to_path(d)) == s.filter(
            |q: PathV| q.shape is Some,
        ).map_values(|q: PathV| normalize_path(q)),
    decreases s.len(),
{
    reveal(Seq::filter);
    let fm = |q: PathV| path_to_dto(q);
    let g = |d: PathDtoV| dto_to_path(d);
    let pred = |q: PathV| q.shape is Some;
    let h = |q: PathV| normalize_path(q);
    if s.len() == 0 {
        assert(s.filter_map(fm).map_values(g) =~= s.filter(pred).map_values(h));
    } else {
        lemma_paths_round_trip(s.drop_last());
        let rest = s.drop_last();
        let last = s.last();
        if last.shape is Some {
            lemma_path_round_trip(last);
            assert(s.filter_map(fm) =~= rest.filter_map(fm) + seq![path_to_dto(last).unwrap()]);
            assert(s.filter(pred) =~= rest.filter(pred).push(last));
            assert(s.filter_map(fm).map_values(g) =~= rest.filter_map(fm).map_values(g).push(
                g(path_to_dto(last).unwrap()),
            ));
            assert(s.filter(pred).map_values(h) =~= rest.filter(pred).map_values(h).push(
                normalize_path(last),
            ));
            assert(s.filter_map(fm).map_values(g) =~= s.filter(pred).map_values(h));
        } else {
            assert(s.filter_map(fm) =~= rest.filter_map(fm));
            assert(s.filter(pred) =~= rest.filter(pred));
            assert(s.filter_map(fm).map_values(g) =~= s.filter(pred).map_values(h));
        }
    }
}

/// Converting a piece to the interchange form and back narrows the
/// restriction bits to the enumerated set and keeps exactly the shaped
/// paths, normalized, in order; every other field is kept exactly.
pub proof fn lemma_piece_round_trip(p: PieceV)
    ensures
        dto_to_piece(piece_to_dto(p)) == normalize_piece(p),
{
    lemma_piece_flags_closure(p.restriction_flags);
    lemma_paths_round_trip(p.paths);
    assert(dto_to_piece(piece_to_dto(p)) =~= normalize_piece(p));
}

/// A piece that the interchange form can carry without loss: its
/// restriction bits are drawn only from the enumerated constants and
/// every path of it is representable.
pub open spec fn representable_piece(p: PieceV) -> bool {
    &&& p.restriction_flags & PIECE_RESTRICTIONS_MASK == p.restriction_flags
    &&& forall|j: int| 0 <= j < p.paths.len() ==> representable_path(#[trigger] p.paths[j])
}

/// Filtering keeps a path list whole when every path has a shape.
proof fn lemma_filter_all_shaped(s: Seq<PathV>)
    requires
        forall|j: int| 0 <= j < s.len() ==> (#[trigger] s[j]).shape is Some,
    ensures
        s.filter(|q: PathV| q.shape is Some) == s,
    decreases s.len(),
{
    reveal(Seq::filter);
    if s.len() == 0 {
    } else {
        lemma_filter_all_shaped(s.drop_last());
        assert(s.drop_last().push(s.last()) =~= s);
    }
}

/// On a representable piece, normalization changes nothing.
pub proof fn lemma_normalize_representable_piece(p: PieceV)
    requires
        representable_piece(p),
    ensures
        normalize_piece(p) == p,
{
    lemma_filter_all_shaped(p.paths);
    assert forall|j: int| 0 <= j < p.paths.len() implies normalize_path(#[trigger] p.paths[j])
        == p.paths[j] by {
        lemma_normalize_representable_path(p.paths[j]);
    }
    assert(p.paths.map_values(|q: PathV| normalize_path(q)) =~= p.paths);
    assert(normalize_piece(p) =~= p);
}

/// Idempotence of filtering: a piece holding a mix of shaped and
/// shapeless paths, taken to the interchange form and back, holds
/// exactly as many paths as the original held shaped ones, and they
/// stand in the original relative order.
pub proof fn lemma_piece_filter_idempotent(p: PieceV)
    ensures
        dto_to_piece(piece_to_dto(p)).paths.len() == p.paths.filter(
            |q: PathV| q.shape is Some,
        ).len(),
        dto_to_piece(piece_to_dto(p)).paths == p.paths.filter(|q: PathV| q.shape is Some)
            .map_values(|q: PathV| normalize_path(q)),
{
    lemma_piece_round_trip(p);
}

} // verus!
