//! Plain-value model of the domain side: the data that the binary
//! cutting-machine container holds, as far as the interchange mapping
//! reads or writes it.  Geometry coordinates are exact integers; the six
//! affine transform components are carried as 32-bit IEEE 754 bit
//! patterns, since the mapping only passes them through.

use vstd::prelude::*;

verus! {

/// A 2D coordinate pair.
#[derive(Clone, Copy, Debug, PartialEq, Eq, Structural)]
pub struct Point {
    pub x: i32,
    pub y: i32,
}

impl DeepView for Point {
    type V = Point;

    open spec fn deep_view(&self) -> Point {
        *self
    }
}

/// A straight segment: only its end point is stored.
#[derive(Clone, Copy, Debug, PartialEq, Eq, Structural)]
pub struct SegmentLine {
    pub end: Point,
}

impl DeepView for SegmentLine {
    type V = SegmentLine;

    open spec fn deep_view(&self) -> SegmentLine {
        *self
    }
}

/// A cubic bezier segment: two control points and an end point.
#[derive(Clone, Copy, Debug, PartialEq, Eq, Structural)]
pub struct SegmentBezier {
    pub control1: Point,
    pub control2: Point,
    pub end: Point,
}

impl DeepView for SegmentBezier {
    type V = SegmentBezier;

    open spec fn deep_view(&self) -> SegmentBezier {
        *self
    }
}

/// One contiguous curve: either a chain of straight segments or a chain
/// of bezier segments.
#[derive(Clone, Debug, PartialEq)]
pub enum Outline {
    Line(Vec<SegmentLine>),
    Bezier(Vec<SegmentBezier>),
}

#[verifier::ext_equal]
pub ghost enum OutlineV {
    Line(Seq<SegmentLine>),
    Bezier(Seq<SegmentBezier>),
}

impl DeepView for Outline {
    type V = OutlineV;

    open spec fn deep_view(&self) -> OutlineV {
        match self {
            Outline::Line(segments) => OutlineV::Line(segments.deep_view()),
            Outline::Bezier(segments) => OutlineV::Bezier(segments.deep_view()),
        }
    }
}

/// The geometry of a path: where it starts and the outlines it follows.
#[derive(Clone, Debug, PartialEq)]
pub struct PathShape {
    pub start: Point,
    pub outlines: Vec<Outline>,
}

#[verifier::ext_equal]
pub ghost struct PathShapeV {
    pub start: Point,
    pub outlines: Seq<OutlineV>,
}

impl DeepView for PathShape {
    type V = PathShapeV;

    open spec fn deep_view(&self) -> PathShapeV {
        PathShapeV { start: self.start, outlines: self.outlines.deep_view() }
    }
}

/// One drawable/cuttable path: tool flag bits, optional geometry, and
/// rhinestone data that the interchange form cannot carry.
#[derive(Clone, Debug, PartialEq)]
pub struct Path {
    pub tool: u32,
    pub shape: Option<PathShape>,
    pub rhinestone_diameter: Option<u32>,
    pub rhinestones: Vec<Point>,
}

#[verifier::ext_equal]
pub ghost struct PathV {
    pub tool: u32,
    pub shape: Option<PathShapeV>,
    pub rhinestone_diameter: Option<u32>,
    pub rhinestones: Seq<Point>,
}

impl DeepView for Path {
    type V = PathV;

    open spec fn deep_view(&self) -> PathV {
        PathV {
            tool: self.tool,
            shape: self.shape.deep_view(),
            rhinestone_diameter: self.rhinestone_diameter,
            rhinestones: self.rhinestones.deep_view(),
        }
    }
}

/// The six components of an affine transform, each held as the bit
/// pattern of a 32-bit IEEE 754 value.  The mapping never interprets
/// them; they pass through both directions unchanged.
#[derive(Clone, Copy, Debug, PartialEq, Eq, Structural)]
pub struct Transform {
    pub m0: u32,
    pub m1: u32,
    pub m2: u32,
    pub m3: u32,
    pub m4: u32,
    pub m5: u32,
}

impl DeepView for Transform {
    type V = Transform;

    open spec fn deep_view(&self) -> Transform {
        *self
    }
}

/// One placeable design unit.
#[derive(Clone, Debug, PartialEq)]
pub struct Piece {
    pub width: u32,
    pub height: u32,
    pub transform: Option<Transform>,
    pub expansion_limit_value: u32,
    pub reduction_limit_value: u32,
    pub restriction_flags: u32,
    pub label: String,
    pub paths: Vec<Path>,
}

#[verifier::ext_equal]
pub ghost struct PieceV {
    pub width: u32,
    pub height: u32,
    pub transform: Option<Transform>,
    pub expansion_limit_value: u32,
    pub reduction_limit_value: u32,
    pub restriction_flags: u32,
    pub label: Seq<char>,
    pub paths: Seq<PathV>,
}

impl DeepView for Piece {
    type V = PieceV;

    open spec fn deep_view(&self) -> PieceV {
        PieceV {
            width: self.width,
            height: self.height,
            transform: self.transform,
            expansion_limit_value: self.expansion_limit_value,
            reduction_limit_value: self.reduction_limit_value,
            restriction_flags: self.restriction_flags,
            label: self.label.deep_view(),
            paths: self.paths.deep_view(),
        }
    }
}

/// The ordered piece list, each piece under a 16-bit key, in the
/// container's table order.
#[derive(Clone, Debug, PartialEq)]
pub struct PieceTable {
    pub pieces: Vec<(u16, Piece)>,
}

impl DeepView for PieceTable {
    type V = Seq<(u16, PieceV)>;

    open spec fn deep_view(&self) -> Seq<(u16, PieceV)> {
        self.pieces.deep_view()
    }
}

/// The discriminant of the material parameter block.
#[derive(Clone, Copy, Debug, PartialEq, Eq, Structural)]
pub enum FileType {
    Cut,
    PrintAndCut,
}

impl DeepView for FileType {
    type V = FileType;

    open spec fn deep_view(&self) -> FileType {
        *self
    }
}

/// Print-to-cut alignment marks; never represented in the interchange
/// form and always dropped by the mapping.
#[derive(Clone, Debug, PartialEq)]
pub struct AlignmentData {
    pub needed: bool,
    pub marks: Vec<Point>,
}

#[verifier::ext_equal]
pub ghost struct AlignmentDataV {
    pub needed: bool,
    pub marks: Seq<Point>,
}

impl DeepView for AlignmentData {
    type V = AlignmentDataV;

    open spec fn deep_view(&self) -> AlignmentDataV {
        AlignmentDataV { needed: self.needed, marks: self.marks.deep_view() }
    }
}

/// Material/mat parameters.
#[derive(Clone, Debug, PartialEq)]
pub struct CutData {
    pub file_type: FileType,
    pub mat_id: u32,
    pub cut_width: u32,
    pub cut_height: u32,
    pub seam_allowance_width: u32,
    pub alignment: Option<AlignmentData>,
}

#[verifier::ext_equal]
pub ghost struct CutDataV {
    pub file_type: FileType,
    pub mat_id: u32,
    pub cut_width: u32,
    pub cut_height: u32,
    pub seam_allowance_width: u32,
    pub alignment: Option<AlignmentDataV>,
}

impl DeepView for CutData {
    type V = CutDataV;

    open spec fn deep_view(&self) -> CutDataV {
        CutDataV {
            file_type: self.file_type,
            mat_id: self.mat_id,
            cut_width: self.cut_width,
            cut_height: self.cut_height,
            seam_allowance_width: self.seam_allowance_width,
            alignment: self.alignment.deep_view(),
        }
    }
}

/// The container variant tag of the header.
#[derive(Clone, Copy, Debug, PartialEq, Eq, Structural)]
pub enum FileVariant {
    FCM,
    VCM,
}

impl DeepView for FileVariant {
    type V = FileVariant;

    open spec fn deep_view(&self) -> FileVariant {
        *self
    }
}

/// The identity of whatever produced the container.
#[derive(Clone, Copy, Debug, PartialEq, Eq, Structural)]
pub enum Generator {
    App(u32),
    Web(u32),
    Device(u32, u32),
}

impl DeepView for Generator {
    type V = Generator;

    open spec fn deep_view(&self) -> Generator {
        *self
    }
}

/// The container header.  Only `content_id`, the four name/credit
/// strings and the thumbnail survive a trip through the interchange
/// form; the rest is defaulted on reconstruction.
#[derive(Clone, Debug, PartialEq)]
pub struct FileHeader {
    pub variant: FileVariant,
    pub version: String,
    pub content_id: u32,
    pub short_name: String,
    pub long_name: String,
    pub author_name: String,
    pub copyright: String,
    pub thumbnail_block_size_width: u8,
    pub thumbnail_block_size_height: u8,
    pub thumbnail: Vec<u8>,
    pub generator: Generator,
    pub print_to_cut: Option<bool>,
}

#[verifier::ext_equal]
pub ghost struct FileHeaderV {
    pub variant: FileVariant,
    pub version: Seq<char>,
    pub content_id: u32,
    pub short_name: Seq<char>,
    pub long_name: Seq<char>,
    pub author_name: Seq<char>,
    pub copyright: Seq<char>,
    pub thumbnail_block_size_width: u8,
    pub thumbnail_block_size_height: u8,
    pub thumbnail: Seq<u8>,
    pub generator: Generator,
    pub print_to_cut: Option<bool>,
}

impl DeepView for FileHeader {
    type V = FileHeaderV;

    open spec fn deep_view(&self) -> FileHeaderV {
        FileHeaderV {
            variant: self.variant,
            version: self.version.deep_view(),
            content_id: self.content_id,
            short_name: self.short_name.deep_view(),
            long_name: self.long_name.deep_view(),
            author_name: self.author_name.deep_view(),
            copyright: self.copyright.deep_view(),
            thumbnail_block_size_width: self.thumbnail_block_size_width,
            thumbnail_block_size_height: self.thumbnail_block_size_height,
            thumbnail: self.thumbnail.deep_view(),
            generator: self.generator,
            print_to_cut: self.print_to_cut,
        }
    }
}

/// The whole convertible document.
#[derive(Clone, Debug, PartialEq)]
pub struct FcmFile {
    pub file_header: FileHeader,
    pub cut_data: CutData,
    pub piece_table: PieceTable,
}

#[verifier::ext_equal]
pub ghost struct FcmFileV {
    pub file_header: FileHeaderV,
    pub cut_data: CutDataV,
    pub piece_table: Seq<(u16, PieceV)>,
}

impl DeepView for FcmFile {
    type V = FcmFileV;

    open spec fn deep_view(&self) -> FcmFileV {
        FcmFileV {
            file_header: self.file_header.deep_view(),
            cut_data: self.cut_data.deep_view(),
            piece_table: self.piece_table.deep_view(),
        }
    }
}

} // verus!
