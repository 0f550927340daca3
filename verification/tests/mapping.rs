use json_to_fcm::cut_data::CutDataDto;
use json_to_fcm::domain::CutData;
use json_to_fcm::domain::FcmFile;
use json_to_fcm::domain::FileHeader;
use json_to_fcm::domain::FileType;
use json_to_fcm::domain::FileVariant;
use json_to_fcm::domain::Generator;
use json_to_fcm::domain::Outline;
use json_to_fcm::domain::PathShape;
use json_to_fcm::domain::Piece;
use json_to_fcm::domain::PieceTable;
use json_to_fcm::domain::Point;
use json_to_fcm::domain::SegmentBezier;
use json_to_fcm::domain::SegmentLine;
use json_to_fcm::file::FileDto;
use json_to_fcm::file::ThumbnailDto;
use json_to_fcm::outline::OutlineDto;
use json_to_fcm::path::PathDto;
use json_to_fcm::path_flags;
use json_to_fcm::piece::PieceDto;
use json_to_fcm::point::PointDto;
use json_to_fcm::segment_bezier::SegmentBezierDto;
use json_to_fcm::segment_line::SegmentLineDto;

fn shaped_path(tool: u32, start: Point, outlines: Vec<Outline>) -> json_to_fcm::domain::Path {
    json_to_fcm::domain::Path {
        tool,
        shape: Some(PathShape { start, outlines }),
        rhinestone_diameter: None,
        rhinestones: vec![],
    }
}

fn shapeless_path(tool: u32) -> json_to_fcm::domain::Path {
    json_to_fcm::domain::Path {
        tool,
        shape: None,
        rhinestone_diameter: Some(7),
        rhinestones: vec![Point { x: 1, y: 2 }],
    }
}

#[test]
fn point_maps_both_ways() {
    let d = PointDto::from(&Point { x: -3, y: 44 });
    assert_eq!(d, PointDto { x: -3, y: 44 });
    assert_eq!(d.into(), Point { x: -3, y: 44 });
}

#[test]
fn segments_map_both_ways() {
    let l = SegmentLineDto::from(&SegmentLine { end: Point { x: 5, y: 6 } });
    assert_eq!(l.end, PointDto { x: 5, y: 6 });
    assert_eq!(l.into(), SegmentLine { end: Point { x: 5, y: 6 } });

    let b = SegmentBezierDto::from(&SegmentBezier {
        control1: Point { x: 1, y: 2 },
        control2: Point { x: 3, y: 4 },
        end: Point { x: 5, y: 6 },
    });
    assert_eq!(b.control1, PointDto { x: 1, y: 2 });
    assert_eq!(b.control2, PointDto { x: 3, y: 4 });
    assert_eq!(b.end, PointDto { x: 5, y: 6 });
    let back = b.into();
    assert_eq!(back.control1, Point { x: 1, y: 2 });
    assert_eq!(back.control2, Point { x: 3, y: 4 });
    assert_eq!(back.end, Point { x: 5, y: 6 });
}

#[test]
fn outline_keeps_tag_and_order() {
    let line = Outline::Line(vec![
        SegmentLine { end: Point { x: 1, y: 1 } },
        SegmentLine { end: Point { x: 2, y: 2 } },
    ]);
    let d = OutlineDto::from(&line);
    match &d {
        OutlineDto::Line { segments } => {
            assert_eq!(segments.len(), 2);
            assert_eq!(segments[0].end, PointDto { x: 1, y: 1 });
            assert_eq!(segments[1].end, PointDto { x: 2, y: 2 });
        }
        OutlineDto::Bezier { .. } => panic!("a line outline must keep the line tag"),
    }
    assert_eq!(OutlineDto::into(&d), line);

    let bez = Outline::Bezier(vec![SegmentBezier {
        control1: Point { x: 0, y: 1 },
        control2: Point { x: 2, y: 3 },
        end: Point { x: 4, y: 5 },
    }]);
    let d = OutlineDto::from(&bez);
    match &d {
        OutlineDto::Bezier { segments } => assert_eq!(segments.len(), 1),
        OutlineDto::Line { .. } => panic!("a bezier outline must keep the bezier tag"),
    }
    assert_eq!(OutlineDto::into(&d), bez);
}

#[test]
fn shapeless_path_is_refused() {
    assert!(PathDto::try_from(&shapeless_path(0)).is_err());
}

#[test]
fn shaped_path_maps_and_reconstructs_without_rhinestones() {
    let p = json_to_fcm::domain::Path {
        tool: path_flags::PATH_OPEN,
        shape: Some(PathShape {
            start: Point { x: 9, y: 8 },
            outlines: vec![Outline::Line(vec![SegmentLine { end: Point { x: 7, y: 6 } }])],
        }),
        rhinestone_diameter: Some(3),
        rhinestones: vec![Point { x: 0, y: 0 }],
    };
    let d = PathDto::try_from(&p).unwrap();
    assert!(d.flags.open);
    assert_eq!(d.start, PointDto { x: 9, y: 8 });
    assert_eq!(d.outlines.len(), 1);
    let back = PathDto::into(&d);
    assert_eq!(back.tool, path_flags::PATH_OPEN);
    assert_eq!(back.rhinestone_diameter, None);
    assert!(back.rhinestones.is_empty());
    assert_eq!(back.shape, p.shape);
}

#[test]
fn piece_filters_shapeless_paths_in_order() {
    let piece = Piece {
        width: 100,
        height: 200,
        transform: None,
        expansion_limit_value: 10,
        reduction_limit_value: 20,
        restriction_flags: 0,
        label: String::from("mixed"),
        paths: vec![
            shaped_path(1, Point { x: 1, y: 0 }, vec![]),
            shapeless_path(2),
            shaped_path(4, Point { x: 3, y: 0 }, vec![]),
            shapeless_path(8),
        ],
    };
    let d = PieceDto::from(&piece);
    assert_eq!(d.paths.len(), 2);
    assert_eq!(d.paths[0].start, PointDto { x: 1, y: 0 });
    assert_eq!(d.paths[1].start, PointDto { x: 3, y: 0 });
    let back = PieceDto::into(&d);
    assert_eq!(back.paths.len(), 2);
    assert_eq!(back.label, "mixed");
    // converting again keeps the already-filtered list as it is
    let again = PieceDto::from(&back);
    assert_eq!(again.paths.len(), 2);
}

fn scenario_file() -> FcmFile {
    FcmFile {
        file_header: FileHeader {
            variant: FileVariant::VCM,
            version: String::from("9999"),
            content_id: 42,
            short_name: String::from("short"),
            long_name: String::from("long"),
            author_name: String::from("author"),
            copyright: String::from("copyright"),
            thumbnail_block_size_width: 1,
            thumbnail_block_size_height: 1,
            thumbnail: vec![0x00, 0x01, 0x02],
            generator: Generator::Web(5),
            print_to_cut: Some(true),
        },
        cut_data: CutData {
            file_type: FileType::PrintAndCut,
            mat_id: 1,
            cut_width: 2,
            cut_height: 3,
            seam_allowance_width: 4,
            alignment: None,
        },
        piece_table: PieceTable {
            pieces: vec![(0, Piece {
                width: 100,
                height: 50,
                transform: None,
                expansion_limit_value: 0,
                reduction_limit_value: 0,
                restriction_flags: 0,
                label: String::from(""),
                paths: vec![shaped_path(
                    path_flags::PATH_OPEN,
                    Point { x: 0, y: 0 },
                    vec![Outline::Line(vec![SegmentLine { end: Point { x: 100, y: 50 } }])],
                )],
            })],
        },
    }
}

#[test]
fn end_to_end_scenario() {
    let file = scenario_file();
    let dto = FileDto::from(&file);

    assert_eq!(dto.content_id, 42);
    assert_eq!(dto.short_name, "short");
    assert_eq!(dto.pieces.len(), 1);
    let path = &dto.pieces[0].paths[0];
    assert!(path.flags.open);
    assert!(!path.flags.fill);
    assert_eq!(path.start, PointDto { x: 0, y: 0 });
    assert_eq!(dto.thumbnail.block_width, 1);
    assert_eq!(dto.thumbnail.block_height, 1);
    assert_eq!(json_to_fcm::codec::encode(&dto.thumbnail.data), "AAEC");

    // reconstruct the domain form: defaults must be applied
    let back = FileDto::into(&dto);
    assert_eq!(back.file_header.variant, FileVariant::FCM);
    assert_eq!(back.file_header.version, "0100");
    assert_eq!(back.file_header.generator, Generator::App(0));
    assert_eq!(back.file_header.print_to_cut, None);
    assert_eq!(back.cut_data.file_type, FileType::Cut);
    assert!(back.cut_data.alignment.is_none());
    assert_eq!(back.piece_table.pieces[0].0, 0);
    assert_eq!(back.file_header.content_id, 42);
    assert_eq!(back.file_header.thumbnail, vec![0x00, 0x01, 0x02]);

    // the interchange form of the reconstruction matches field for field
    let dto2 = FileDto::from(&back);
    assert_eq!(dto2, dto);
}

#[test]
fn reconstruction_assigns_sequential_keys() {
    let empty_piece = |label: &str| Piece {
        width: 1,
        height: 1,
        transform: None,
        expansion_limit_value: 0,
        reduction_limit_value: 0,
        restriction_flags: 0,
        label: String::from(label),
        paths: vec![],
    };
    let file = FcmFile {
        piece_table: PieceTable {
            pieces: vec![(7, empty_piece("a")), (3, empty_piece("b"))],
        },
        ..scenario_file()
    };
    let back: FcmFile = FileDto::into(&FileDto::from(&file));
    assert_eq!(back.piece_table.pieces[0].0, 0);
    assert_eq!(back.piece_table.pieces[0].1.label, "a");
    assert_eq!(back.piece_table.pieces[1].0, 1);
    assert_eq!(back.piece_table.pieces[1].1.label, "b");
}

#[test]
fn cut_data_maps_scalars_and_defaults_tag() {
    let c = CutData {
        file_type: FileType::PrintAndCut,
        mat_id: 11,
        cut_width: 22,
        cut_height: 33,
        seam_allowance_width: 44,
        alignment: None,
    };
    let d = CutDataDto::from(&c);
    assert_eq!(d.mat_id, 11);
    assert_eq!(d.cut_width, 22);
    assert_eq!(d.cut_height, 33);
    assert_eq!(d.seam_allowance_width, 44);
    let back: CutData = d.into();
    assert_eq!(back.file_type, FileType::Cut);
    assert!(back.alignment.is_none());
    assert_eq!(back.mat_id, 11);
}

#[test]
fn thumbnail_dimensions_pass_through() {
    let t = ThumbnailDto { block_width: 3, block_height: 4, data: vec![9, 9] };
    assert_eq!(t.block_width, 3);
    assert_eq!(t.block_height, 4);
}
