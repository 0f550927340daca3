use json_to_fcm::path_flags;
use json_to_fcm::path_flags::PathFlagsDto;
use json_to_fcm::piece_flags;
use json_to_fcm::piece_flags::PieceFlagsDto;

#[test]
fn path_flags_expand_membership() {
    let f = PathFlagsDto::from(path_flags::PATH_OPEN | path_flags::FILL);
    assert!(f.open);
    assert!(f.fill);
    assert!(!f.seam_allowance);
    assert!(!f.auto_align);
    assert!(!f.tool_cut);
    assert!(!f.tool_draw);
    assert!(!f.tool_draw_only);
    assert!(!f.tool_rhinestone);
    assert!(!f.tool_emboss);
    assert!(!f.tool_foil);
    assert!(!f.tool_perforating);
}

#[test]
fn path_flags_round_trip_enumerated_subsets() {
    let constants = [
        path_flags::PATH_OPEN,
        path_flags::TOOL_CUT,
        path_flags::TOOL_DRAW,
        path_flags::SEAM_ALLOWANCE,
        path_flags::TOOL_RHINESTONE,
        path_flags::FILL,
        path_flags::AUTO_ALIGN,
        path_flags::TOOL_DRAW_ONLY,
        path_flags::TOOL_EMBOSS,
        path_flags::TOOL_FOIL,
        path_flags::TOOL_PERFORATING,
    ];
    // every singleton, the empty set, and the whole set
    assert_eq!(PathFlagsDto::from(0).into(), 0u32);
    let mut all: u32 = 0;
    for c in constants {
        assert_eq!(PathFlagsDto::from(c).into(), c);
        all |= c;
    }
    assert_eq!(all, path_flags::PATH_TOOL_MASK);
    assert_eq!(PathFlagsDto::from(all).into(), all);
}

#[test]
fn path_flags_drop_unenumerated_bit() {
    let bits = path_flags::PATH_OPEN | path_flags::FILL | 0x0080;
    let back: u32 = PathFlagsDto::from(bits).into();
    assert_eq!(back, path_flags::PATH_OPEN | path_flags::FILL);
}

#[test]
fn piece_flags_expand_membership() {
    let f = PieceFlagsDto::from(
        piece_flags::LICENSE_DESIGN | piece_flags::NO_ASPECT_RATIO_CHANGE_PROHIBITED,
    );
    assert!(f.licensed);
    assert!(f.aspect_ratio_locked);
    assert!(!f.seam_allowance_enabled);
    assert!(!f.seam_allowance_locked);
    assert!(!f.test_pattern);
    assert!(!f.path_locked);
    assert!(!f.tool_locked);
}

#[test]
fn piece_flags_round_trip_enumerated_subsets() {
    let constants = [
        piece_flags::LICENSE_DESIGN,
        piece_flags::SEAM_ALLOWANCE,
        piece_flags::PROHIBITION_OF_SEAM_ALLOWANCE_SETTING,
        piece_flags::NO_ASPECT_RATIO_CHANGE_PROHIBITED,
        piece_flags::TEST_PATTERN,
        piece_flags::PROHIBITION_OF_EDIT,
        piece_flags::PROHIBITION_OF_TOOL,
    ];
    assert_eq!(PieceFlagsDto::from(0).into(), 0u32);
    let mut all: u32 = 0;
    for c in constants {
        assert_eq!(PieceFlagsDto::from(c).into(), c);
        all |= c;
    }
    assert_eq!(all, piece_flags::PIECE_RESTRICTIONS_MASK);
    assert_eq!(PieceFlagsDto::from(all).into(), all);
}

#[test]
fn piece_flags_drop_unenumerated_bit() {
    let bits = piece_flags::TEST_PATTERN | 0x0010;
    let back: u32 = PieceFlagsDto::from(bits).into();
    assert_eq!(back, piece_flags::TEST_PATTERN);
}
