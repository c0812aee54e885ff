use trafficserver::helpers::{checked_raw_str, checked_raw_string, validate_utf8, RawStrError};
use trafficserver::host::HostStr;

fn host_str(bytes: &[u8]) -> HostStr {
    HostStr::from_bytes(bytes.to_vec())
}

#[test]
fn null_pointer_yields_invalid_pointer() {
    let raw = HostStr::null();
    assert_eq!(
        checked_raw_str(&raw),
        Err(RawStrError::InvalidStringPointer)
    );
}

#[test]
fn negative_length_yields_invalid_length() {
    let raw = HostStr {
        is_null: false,
        len: -7,
        bytes: Vec::new(),
    };
    assert_eq!(checked_raw_str(&raw), Err(RawStrError::InvalidStringLength(-7)));
}

#[test]
fn invalid_utf8_yields_invalid_encoding_with_offset() {
    // One valid ASCII byte, then a lone continuation byte: decoding fails at
    // offset 1.
    let raw = host_str(&[0x41, 0xbf, 0x42]);
    assert_eq!(checked_raw_str(&raw), Err(RawStrError::InvalidString(1)));
}

#[test]
fn truncated_multibyte_scalar_fails_at_its_start() {
    // A 3-byte leading byte with only one continuation byte after it.
    let raw = host_str(&[0x61, 0x62, 0xe2, 0x82]);
    assert_eq!(checked_raw_str(&raw), Err(RawStrError::InvalidString(2)));
}

#[test]
fn valid_bytes_round_trip_unchanged() {
    let text = "héllo wörld ✓";
    let raw = host_str(text.as_bytes());
    let out = checked_raw_str(&raw).unwrap();
    assert_eq!(out, text);
    assert_eq!(out.as_bytes(), text.as_bytes());
}

#[test]
fn empty_input_is_valid_empty_text() {
    let raw = host_str(b"");
    assert_eq!(checked_raw_str(&raw), Ok(""));
}

#[test]
fn owned_extraction_matches_borrowed() {
    let raw = host_str(b"GET");
    let owned = checked_raw_string(raw).unwrap();
    assert_eq!(owned.as_str(), "GET");
    assert_eq!(owned.into_string(), String::from("GET"));
}

#[test]
fn owned_extraction_reports_same_failures() {
    assert_eq!(
        checked_raw_string(HostStr::null()).unwrap_err(),
        RawStrError::InvalidStringPointer
    );
    let bad = host_str(&[0xff]);
    assert_eq!(
        checked_raw_string(bad).unwrap_err(),
        RawStrError::InvalidString(0)
    );
}

#[test]
fn validator_agrees_with_std() {
    let cases: Vec<Vec<u8>> = vec![
        b"plain ascii".to_vec(),
        vec![],
        vec![0xc2, 0xa9],
        vec![0xc0, 0xaf],             // overlong 2-byte
        vec![0xe0, 0x80, 0x80],       // overlong 3-byte
        vec![0xed, 0xa0, 0x80],       // surrogate
        vec![0xed, 0x9f, 0xbf],       // just below surrogates
        vec![0xf0, 0x80, 0x80, 0x80], // overlong 4-byte
        vec![0xf4, 0x8f, 0xbf, 0xbf], // largest scalar
        vec![0xf4, 0x90, 0x80, 0x80], // above largest scalar
        vec![0xf5, 0x80, 0x80, 0x80],
        vec![0x41, 0xc2],             // truncated at end
        vec![0x80],                   // lone continuation
        "héllo ✓ 𐍈".as_bytes().to_vec(),
    ];
    for bytes in cases {
        let std_res = std::str::from_utf8(&bytes);
        match validate_utf8(&bytes) {
            Ok(()) => assert!(std_res.is_ok(), "bytes {:?}", bytes),
            Err(off) => {
                let err = std_res.expect_err(&format!("bytes {:?}", bytes));
                assert_eq!(off, err.valid_up_to(), "bytes {:?}", bytes);
            }
        }
    }
}
