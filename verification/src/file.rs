//! Interchange form of the whole document, and the top-level mapping.
//!
//! Going to the interchange form keeps the five narrow header fields,
//! the material parameters, the thumbnail and every piece in table
//! order.  Coming back, every header field the interchange form lacks
//! is synthesized from fixed defaults in one place
//! ([`dto_to_file`]), and piece keys are assigned sequentially in list
//! order.

use vstd::prelude::*;
use vstd::string::StringExecFns;

use crate::cut_data::cut_data_to_dto;
use crate::cut_data::dto_to_cut_data;
use crate::cut_data::lemma_cut_data_round_trip;
use crate::cut_data::normalize_cut_data;
use crate::cut_data::CutDataDto;
use crate::domain::FcmFile;
use crate::domain::FcmFileV;
use crate::domain::FileHeader;
use crate::domain::FileHeaderV;
use crate::domain::FileVariant;
use crate::domain::Generator;
use crate::domain::Piece;
use crate::domain::PieceTable;
use crate::domain::PieceV;
use crate::piece::dto_to_piece;
use crate::piece::lemma_normalize_representable_piece;
use crate::piece::lemma_piece_round_trip;
use crate::piece::piece_to_dto;
use crate::piece::representable_piece;
use crate::piece::PieceDto;
use crate::piece::PieceDtoV;
use crate::util::clone_bytes;
use crate::util::clone_string;

verus! {

/// The thumbnail as the interchange form carries it: the block
/// dimensions pass through unchanged; the pixel buffer is held raw here
/// and crosses the textual boundary through the codec.
#[derive(Clone, Debug, PartialEq)]
pub struct ThumbnailDto {
    pub block_width: u8,
    pub block_height: u8,
    pub data: Vec<u8>,
}

#[verifier::ext_equal]
pub ghost struct ThumbnailDtoV {
    pub block_width: u8,
    pub block_height: u8,
    pub data: Seq<u8>,
}

impl DeepView for ThumbnailDto {
    type V = ThumbnailDtoV;

    open spec fn deep_view(&self) -> ThumbnailDtoV {
        ThumbnailDtoV {
            block_width: self.block_width,
            block_height: self.block_height,
            data: self.data.deep_view(),
        }
    }
}

#[derive(Clone, Debug, PartialEq)]
pub struct FileDto {
    pub content_id: u32,
    pub short_name: String,
    pub long_name: String,
    pub author_name: String,
    pub copyright: String,
    pub cut_data: CutDataDto,
    pub thumbnail: ThumbnailDto,
    pub pieces: Vec<PieceDto>,
}

#[verifier::ext_equal]
pub ghost struct FileDtoV {
    pub content_id: u32,
    pub short_name: Seq<char>,
    pub long_name: Seq<char>,
    pub author_name: Seq<char>,
    pub copyright: Seq<char>,
    pub cut_data: CutDataDto,
    pub thumbnail: ThumbnailDtoV,
    pub pieces: Seq<PieceDtoV>,
}

impl DeepView for FileDto {
    type V = FileDtoV;

    open spec fn deep_view(&self) -> FileDtoV {
        FileDtoV {
            content_id: self.content_id,
            short_name: self.short_name.deep_view(),
            long_name: self.long_name.deep_view(),
            author_name: self.author_name.deep_view(),
            copyright: self.copyright.deep_view(),
            cut_data: self.cut_data,
            thumbnail: self.thumbnail.deep_view(),
            pieces: self.pieces.deep_view(),
        }
    }
}

/// The version string synthesized on reconstruction.
pub open spec fn default_version() -> Seq<char> {
    seq!['0', '1', '0', '0']
}

/// The interchange form of a whole document: the five narrow header
/// fields, the material parameters, the thumbnail, and every piece in
/// table order (keys dropped).
pub open spec fn file_to_dto(f: FcmFileV) -> FileDtoV {
    FileDtoV {
        content_id: f.file_header.content_id,
        short_name: f.file_header.short_name,
        long_name: f.file_header.long_name,
        author_name: f.file_header.author_name,
        copyright: f.file_header.copyright,
        cut_data: cut_data_to_dto(f.cut_data),
        thumbnail: ThumbnailDtoV {
            block_width: f.file_header.thumbnail_block_size_width,
            block_height: f.file_header.thumbnail_block_size_height,
            data: f.file_header.thumbnail,
        },
        pieces: f.piece_table.map_values(|kv: (u16, PieceV)| piece_to_dto(kv.1)),
    }
}

/// The domain form of an interchange document.  Every header field the
/// interchange form lacks is a fixed default: the primary container
/// variant, version `"0100"`, generator identity zero, no print-to-cut
/// linkage.  Piece keys are assigned sequentially in list order.
pub open spec fn dto_to_file(d: FileDtoV) -> FcmFileV {
    FcmFileV {
        file_header: FileHeaderV {
            variant: FileVariant::FCM,
            version: default_version(),
            content_id: d.content_id,
            short_name: d.short_name,
            long_name: d.long_name,
            author_name: d.author_name,
            copyright: d.copyright,
            thumbnail_block_size_width: d.thumbnail.block_width,
            thumbnail_block_size_height: d.thumbnail.block_height,
            thumbnail: d.thumbnail.data,
            generator: Generator::App(0),
            print_to_cut: None,
        },
        cut_data: dto_to_cut_data(d.cut_data),
        piece_table: Seq::new(d.pieces.len(), |i: int| (i as u16, dto_to_piece(d.pieces[i]))),
    }
}

impl FileDto {
    pub fn from(file: &FcmFile) -> (r: FileDto)
        ensures
            r.deep_view() == file_to_dto(file.deep_view()),
    {
        let mut pieces: Vec<PieceDto> = Vec::new();
        for i in 0..file.piece_table.pieces.len()
            invariant
                pieces@.len() == i,
                forall|j: int|
                    0 <= j < i ==> pieces@[j].deep_view() == piece_to_dto(
                        (#[trigger] file.piece_table.pieces@[j]).1.deep_view(),
                    ),
        {
            pieces.push(PieceDto::from(&file.piece_table.pieces[i].1));
        }
        let r = FileDto {
            content_id: file.file_header.content_id,
            short_name: clone_string(&file.file_header.short_name),
            long_name: clone_string(&file.file_header.long_name),
            author_name: clone_string(&file.file_header.author_name),
            copyright: clone_string(&file.file_header.copyright),
            cut_data: CutDataDto::from(&file.cut_data),
            thumbnail: ThumbnailDto {
                block_width: file.file_header.thumbnail_block_size_width,
                block_height: file.file_header.thumbnail_block_size_height,
                data: clone_bytes(&file.file_header.thumbnail),
            },
            pieces,
        };
        proof {
            assert(r.deep_view() =~~= file_to_dto(file.deep_view()));
        }
        r
    }

    pub fn into(&self) -> (r: FcmFile)
        ensures
            r.deep_view() == dto_to_file(self.deep_view()),
    {
        let mut pieces: Vec<(u16, Piece)> = Vec::new();
        for i in 0..self.pieces.len()
            invariant
                pieces@.len() == i,
                forall|j: int|
                    0 <= j < i ==> (#[trigger] pieces@[j]).0 == j as u16 && pieces@[j].1.deep_view()
                        == dto_to_piece(self.pieces@[j].deep_view()),
        {
            let key: u16 = #[verifier::truncate] (i as u16);
            pieces.push((key, PieceDto::into(&self.pieces[i])));
        }
        let version = String::from_str("0100");
        proof {
            reveal_strlit("0100");
            assert(version@ =~= default_version());
        }
        let r = FcmFile {
            file_header: FileHeader {
                variant: FileVariant::FCM,
                version,
                content_id: self.content_id,
                short_name: clone_string(&self.short_name),
                long_name: clone_string(&self.long_name),
                author_name: clone_string(&self.author_name),
                copyright: clone_string(&self.copyright),
                thumbnail_block_size_width: self.thumbnail.block_width,
                thumbnail_block_size_height: self.thumbnail.block_height,
                thumbnail: clone_bytes(&self.thumbnail.data),
                generator: Generator::App(0),
                print_to_cut: None,
            },
            cut_data: CutDataDto::into(self.cut_data),
            piece_table: PieceTable { pieces },
        };
        proof {
            assert(r.deep_view() =~~= dto_to_file(self.deep_view()));
        }
        r
    }
}

/// A document that the interchange form can carry without loss, up to
/// the always-defaulted fields: every piece key is its own position,
/// and every piece is representable.
pub open spec fn representable_file(f: FcmFileV) -> bool {
    &&& forall|i: int|
        0 <= i < f.piece_table.len() ==> (#[trigger] f.piece_table[i]).0 as int == i
    &&& forall|i: int|
        0 <= i < f.piece_table.len() ==> representable_piece((#[trigger] f.piece_table[i]).1)
}

/// The header as reconstruction leaves it: the four fields the
/// interchange form lacks replaced by the fixed defaults, everything
/// else kept.
pub open spec fn normalize_header(h: FileHeaderV) -> FileHeaderV {
    FileHeaderV {
        variant: FileVariant::FCM,
        version: default_version(),
        generator: Generator::App(0),
        print_to_cut: None,
        ..h
    }
}

/// The whole document as a round trip through the interchange form
/// leaves a representable document: header and material-parameter
/// defaults applied, everything else kept.
pub open spec fn normalize_file(f: FcmFileV) -> FcmFileV {
    FcmFileV {
        file_header: normalize_header(f.file_header),
        cut_data: normalize_cut_data(f.cut_data),
        piece_table: f.piece_table,
    }
}

/// Round trip on representable values: a document whose every path has
/// a shape (and no rhinestone data), whose piece keys are exactly their
/// positions, and whose flag bits are drawn only from the enumerated
/// sets comes back from the interchange form unchanged, except the
/// explicitly defaulted header fields and the cut-data tag and
/// alignment, which are replaced by the fixed constants.
pub proof fn lemma_file_round_trip(f: FcmFileV)
    requires
        representable_file(f),
    ensures
        dto_to_file(file_to_dto(f)) == normalize_file(f),
{
    lemma_cut_data_round_trip(f.cut_data);
    let d = file_to_dto(f);
    assert forall|i: int| 0 <= i < f.piece_table.len() implies dto_to_file(d).piece_table[i]
        == f.piece_table[i] by {
        let p = f.piece_table[i].1;
        lemma_piece_round_trip(p);
        lemma_normalize_representable_piece(p);
        assert(dto_to_piece(d.pieces[i]) == p);
    }
    assert(dto_to_file(d).piece_table =~= f.piece_table);
    assert(dto_to_file(d) =~~= normalize_file(f));
}

} // verus!
