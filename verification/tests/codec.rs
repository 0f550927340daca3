use json_to_fcm::codec;
use json_to_fcm::error::FcmConversionError;

#[test]
fn encode_known_bytes() {
    let text = codec::encode(&vec![0x00, 0x01, 0x02]);
    assert_eq!(text, "AAEC");
}

#[test]
fn encode_empty() {
    assert_eq!(codec::encode(&vec![]), "");
}

#[test]
fn encode_padded_lengths() {
    assert_eq!(codec::encode(&vec![0xFF]), "/w==");
    assert_eq!(codec::encode(&vec![0xFF, 0xFE]), "//4=");
}

#[test]
fn decode_known_text() {
    assert_eq!(codec::decode("AAEC").unwrap(), vec![0x00, 0x01, 0x02]);
}

#[test]
fn decode_empty() {
    assert_eq!(codec::decode("").unwrap(), Vec::<u8>::new());
}

#[test]
fn round_trip_various_lengths() {
    for n in 0..16usize {
        let bytes: Vec<u8> = (0..n as u8).map(|i| i.wrapping_mul(37)).collect();
        let text = codec::encode(&bytes);
        assert_eq!(codec::decode(&text).unwrap(), bytes);
        assert_eq!(codec::round_trip(&bytes), bytes);
    }
}

#[test]
fn decode_invalid_character_fails() {
    let r = codec::decode("AA!C");
    match r {
        Err(FcmConversionError::SerdeError(_)) => {}
        _ => panic!("an invalid character must give a structured parse failure"),
    }
}

#[test]
fn decode_bad_padding_fails() {
    assert!(codec::decode("AAEC=").is_err());
    assert!(codec::decode("A").is_err());
}

#[test]
fn error_message_carries_diagnostic() {
    let e = FcmConversionError::SerdeError(String::from("bad payload"));
    assert_eq!(e.message(), "bad payload");
    let e = FcmConversionError::IoError(String::from("gone"));
    assert_eq!(e.message(), "gone");
    let e = FcmConversionError::FcmError(String::from("short read"));
    assert_eq!(e.message(), "short read");
}
