use librazer::color::{rgb_from_hex, Rgb8};
use librazer::error::ParseRGBError;

#[test]
fn three_digit_form_doubles_each_digit() {
    assert_eq!(rgb_from_hex("fff"), Ok(Rgb8::new(0xff, 0xff, 0xff)));
    assert_eq!(rgb_from_hex("abc"), Ok(Rgb8::new(0xaa, 0xbb, 0xcc)));
    assert_eq!(rgb_from_hex("012"), Ok(Rgb8::new(0x00, 0x11, 0x22)));
}

#[test]
fn six_digit_form_pairs_digits() {
    assert_eq!(rgb_from_hex("123456"), Ok(Rgb8::new(0x12, 0x34, 0x56)));
    assert_eq!(rgb_from_hex("AABBCC"), Ok(Rgb8::new(0xaa, 0xbb, 0xcc)));
    assert_eq!(rgb_from_hex("AbCdEf"), Ok(Rgb8::new(0xab, 0xcd, 0xef)));
}

#[test]
fn accepted_prefixes_and_suffix_are_stripped() {
    assert_eq!(rgb_from_hex("#fff"), Ok(Rgb8::new(0xff, 0xff, 0xff)));
    assert_eq!(rgb_from_hex("0xAABBCC"), Ok(Rgb8::new(0xaa, 0xbb, 0xcc)));
    assert_eq!(rgb_from_hex("123456h"), Ok(Rgb8::new(0x12, 0x34, 0x56)));
    assert_eq!(rgb_from_hex("0x#abch"), Ok(Rgb8::new(0xaa, 0xbb, 0xcc)));
    assert_eq!(rgb_from_hex("0x0x112233"), Ok(Rgb8::new(0x11, 0x22, 0x33)));
    assert_eq!(rgb_from_hex("##fff"), Ok(Rgb8::new(0xff, 0xff, 0xff)));
    assert_eq!(rgb_from_hex("abchh"), Ok(Rgb8::new(0xaa, 0xbb, 0xcc)));
}

#[test]
fn wrong_trimmed_length_is_rejected_with_the_length() {
    assert_eq!(rgb_from_hex("abcd"), Err(ParseRGBError::WrongLength(4)));
    assert_eq!(rgb_from_hex(""), Err(ParseRGBError::WrongLength(0)));
    assert_eq!(rgb_from_hex("#"), Err(ParseRGBError::WrongLength(0)));
    assert_eq!(rgb_from_hex("0x"), Err(ParseRGBError::WrongLength(0)));
    assert_eq!(rgb_from_hex("1234567"), Err(ParseRGBError::WrongLength(7)));
}

#[test]
fn non_digit_byte_is_rejected_with_the_first_offender() {
    assert_eq!(rgb_from_hex("ggg"), Err(ParseRGBError::ParseHex(b'g')));
    assert_eq!(rgb_from_hex("a!c"), Err(ParseRGBError::ParseHex(b'!')));
    assert_eq!(rgb_from_hex("12345z"), Err(ParseRGBError::ParseHex(b'z')));
}

#[test]
fn trimming_only_strips_leading_prefixes() {
    // the digit pair "0x" in the middle is data, not a prefix
    assert_eq!(rgb_from_hex("ab0x12"), Err(ParseRGBError::ParseHex(b'x')));
}
