use schtask::guid::{parse_guid, render_guid, FormatError, Guid};
use schtask::hexfmt::{append_hex_fixed, append_hex_min, push_char};

fn sample_guid() -> Guid {
    Guid {
        data1: 0x0F87369F,
        data2: 0xA4E5,
        data3: 0x4CFC,
        data4: [0xBD, 0x3E, 0x73, 0xE6, 0x15, 0x45, 0x72, 0xDD],
    }
}

#[test]
fn renders_standard_hyphenated_form() {
    let g = sample_guid();
    assert_eq!(render_guid(&g), "0f87369f-a4e5-4cfc-bd3e-73e6154572dd");
}

#[test]
fn parse_is_left_inverse_of_render() {
    let g = sample_guid();
    let text = render_guid(&g);
    assert_eq!(parse_guid(&text), Ok(g));
}

#[test]
fn parse_round_trip_on_edge_values() {
    for g in [
        Guid { data1: 0, data2: 0, data3: 0, data4: [0; 8] },
        Guid { data1: u32::MAX, data2: u16::MAX, data3: u16::MAX, data4: [0xFF; 8] },
        Guid { data1: 1, data2: 2, data3: 3, data4: [4, 5, 6, 7, 8, 9, 10, 11] },
    ] {
        assert_eq!(parse_guid(&render_guid(&g)), Ok(g));
    }
}

#[test]
fn parses_braced_uppercase_form() {
    let parsed = parse_guid("{0F87369F-A4E5-4CFC-BD3E-73E6154572DD}").unwrap();
    assert_eq!(parsed, sample_guid());
}

#[test]
fn wrong_group_count_is_format_error() {
    for text in ["", "abc", "1-2-3-4", "1-2-3-4-5-6", "0f87369f-a4e5-4cfc-bd3e"] {
        let err = parse_guid(text).unwrap_err();
        assert_eq!(err, FormatError::InvalidFormat);
        assert_eq!(err.message(), "Invalid GUID format");
    }
}

#[test]
fn group_five_must_be_twelve_characters() {
    let err = parse_guid("0f87369f-a4e5-4cfc-bd3e-73e61545");
    assert_eq!(err, Err(FormatError::Data4Tail));
    assert_eq!(FormatError::Data4Tail.message(), "Invalid Data4 format");
    let err = parse_guid("0f87369f-a4e5-4cfc-bd3e-73e6154572dd00");
    assert_eq!(err, Err(FormatError::Data4Tail));
}

#[test]
fn strict_groups_reject_bad_or_oversized_values() {
    assert_eq!(
        parse_guid("1234567890-a4e5-4cfc-bd3e-73e6154572dd"),
        Err(FormatError::Data1)
    );
    assert_eq!(parse_guid("xyz-a4e5-4cfc-bd3e-73e6154572dd"), Err(FormatError::Data1));
    assert_eq!(FormatError::Data1.message(), "Failed to parse Data1");
    assert_eq!(
        parse_guid("0f87369f-12345-4cfc-bd3e-73e6154572dd"),
        Err(FormatError::Data2)
    );
    assert_eq!(FormatError::Data2.message(), "Failed to parse Data2");
    assert_eq!(
        parse_guid("0f87369f-a4e5-zzzz-bd3e-73e6154572dd"),
        Err(FormatError::Data3)
    );
    assert_eq!(FormatError::Data3.message(), "Failed to parse Data3");
    assert_eq!(
        parse_guid("0f87369f-a4e5-4cfc-z-73e6154572dd"),
        Err(FormatError::Data4Byte0)
    );
    assert_eq!(FormatError::Data4Byte0.message(), "Failed to parse Data4[0]");
    assert_eq!(
        parse_guid("0f87369f-a4e5-4cfc-bdz-73e6154572dd"),
        Err(FormatError::Data4Byte1)
    );
    assert_eq!(FormatError::Data4Byte1.message(), "Failed to parse Data4[1]");
}

#[test]
fn group_five_byte_pairs_default_to_zero_when_malformed() {
    let g = parse_guid("11111111-2222-3333-4455-zz1122334455").unwrap();
    assert_eq!(g.data4, [0x44, 0x55, 0x00, 0x11, 0x22, 0x33, 0x44, 0x55]);
}

#[test]
fn fourth_group_extra_characters_are_ignored() {
    let g = parse_guid("11111111-2222-3333-445566-aabbccddeeff").unwrap();
    assert_eq!(g.data4, [0x44, 0x55, 0xAA, 0xBB, 0xCC, 0xDD, 0xEE, 0xFF]);
}

#[test]
fn hex_rendering_matches_host_formatting() {
    let mut s = String::new();
    append_hex_min(&mut s, 0x80004005);
    assert_eq!(s, "80004005");
    let mut s = String::new();
    append_hex_min(&mut s, 0);
    assert_eq!(s, "0");
    let mut s = String::new();
    append_hex_min(&mut s, 255);
    assert_eq!(s, "ff");
    let mut s = String::new();
    append_hex_fixed(&mut s, 0xA4E5, 4);
    assert_eq!(s, "a4e5");
    let mut s = String::new();
    append_hex_fixed(&mut s, 0x1F, 8);
    assert_eq!(s, "0000001f");
    let mut s = String::from("x");
    push_char(&mut s, 'y');
    assert_eq!(s, "xy");
}
