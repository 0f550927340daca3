use json_to_fcm::driver::conversion_direction;
use json_to_fcm::driver::ConversionDirection;

#[test]
fn fcm_to_json_is_to_json() {
    let r = conversion_direction(b"design.fcm", b"design.json");
    assert_eq!(r, Some(ConversionDirection::ToJson));
}

#[test]
fn json_to_fcm_is_from_json() {
    let r = conversion_direction(b"design.json", b"design.fcm");
    assert_eq!(r, Some(ConversionDirection::FromJson));
}

#[test]
fn other_pairings_are_usage_errors() {
    assert_eq!(conversion_direction(b"design.txt", b"design.json"), None);
    assert_eq!(conversion_direction(b"design.fcm", b"design.fcm"), None);
    assert_eq!(conversion_direction(b"design.json", b"design.json"), None);
    assert_eq!(conversion_direction(b"", b""), None);
    assert_eq!(conversion_direction(b"fcm", b"json"), None);
}

#[test]
fn extension_must_be_at_the_end() {
    assert_eq!(conversion_direction(b"a.fcm.bak", b"b.json"), None);
    assert_eq!(conversion_direction(b"dir.fcm/x.fcm", b"b.json"), Some(ConversionDirection::ToJson));
}
