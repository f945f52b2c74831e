use librazer::codes::{CmdStatus, LedState, PollingRate};
use librazer::commands::{razer_chroma_misc_get_dpi_xy, razer_chroma_standard_get_serial};
use librazer::error::USBError;
use librazer::protocol::{
    byte_to_percent, check_written, decode_response, finalize_request, parse_brightness_response,
    parse_dpi_response, parse_poll_rate_response, parse_serial_response, percent_to_byte, validate,
};
use librazer::report::RazerReport;

fn response_to(request: &RazerReport, status: u8) -> RazerReport {
    let mut resp = *request;
    resp.status = status;
    resp
}

#[test]
fn validate_accepts_matching_successful_response() {
    let req = razer_chroma_misc_get_dpi_xy(librazer::codes::LedStorage::NoStore);
    let resp = response_to(&req, 0x02);
    let out = validate(&req, &resp).expect("a successful echo must validate");
    assert_eq!(out, resp);
}

#[test]
fn validate_rejects_mismatched_command_id_even_on_success() {
    let req = razer_chroma_misc_get_dpi_xy(librazer::codes::LedStorage::NoStore);
    let mut resp = response_to(&req, 0x02);
    resp.command_id = 0x05;
    assert_eq!(validate(&req, &resp), Err(USBError::ResponseMismatch));
}

#[test]
fn validate_rejects_mismatched_remaining_packets() {
    let req = razer_chroma_standard_get_serial();
    let mut resp = response_to(&req, 0x02);
    resp.remaining_packets = 1;
    assert_eq!(validate(&req, &resp), Err(USBError::ResponseMismatch));
}

#[test]
fn validate_maps_each_status_to_its_error() {
    let req = razer_chroma_standard_get_serial();
    assert_eq!(validate(&req, &response_to(&req, 0x01)), Err(USBError::DeviceBusy));
    assert_eq!(validate(&req, &response_to(&req, 0x03)), Err(USBError::CommandFailed));
    assert_eq!(validate(&req, &response_to(&req, 0x04)), Err(USBError::CommandTimeout));
    assert_eq!(validate(&req, &response_to(&req, 0x05)), Err(USBError::CommandNotSupported));
    assert_eq!(
        validate(&req, &response_to(&req, 0x00)),
        Err(USBError::ResponseUnknownStatus(0x00))
    );
    assert_eq!(
        validate(&req, &response_to(&req, 0xc8)),
        Err(USBError::ResponseUnknownStatus(0xc8))
    );
}

#[test]
fn all_zero_response_with_status_3_is_command_failed() {
    // A fresh all-zero request echoes an all-zero frame; only the status
    // byte is set, to 0x03.
    let mut frame = [0u8; 90];
    frame[0] = 0x03;
    let resp = RazerReport::unpack(&frame).expect("a 90-byte frame must decode");
    let req = RazerReport::default();
    assert_eq!(validate(&req, &resp), Err(USBError::CommandFailed));
}

#[test]
fn short_write_is_incomplete_write() {
    assert_eq!(check_written(60), Err(USBError::IncompleteWrite(90, 60)));
    assert_eq!(check_written(0), Err(USBError::IncompleteWrite(90, 0)));
    assert!(check_written(90).is_ok());
}

#[test]
fn short_read_is_incomplete_read() {
    let buffer = [0u8; 90];
    assert_eq!(decode_response(45, &buffer), Err(USBError::IncompleteRead(90, 45)));
    assert!(decode_response(90, &buffer).is_ok());
}

#[test]
fn decode_response_decodes_the_frame() {
    let mut frame = [0u8; 90];
    frame[0] = 0x02;
    frame[6] = 0x04;
    frame[7] = 0x85;
    let r = decode_response(90, &frame).unwrap();
    assert_eq!(r.status, 0x02);
    assert_eq!(r.command_class, 0x04);
    assert_eq!(r.command_id, 0x85);
}

#[test]
fn finalize_request_stamps_tx_id_and_crc() {
    let mut r = razer_chroma_standard_get_serial();
    finalize_request(&mut r, 0x3f);
    assert_eq!(r.transaction_id, 0x3f);
    let frame = r.pack();
    let expected = frame[2..88].iter().fold(0u8, |acc, b| acc ^ b);
    assert_eq!(r.crc, expected);
}

#[test]
fn unknown_polling_rate_byte_is_an_error_not_a_default() {
    let mut resp = RazerReport::default();
    resp.arguments[0] = 0xff;
    assert_eq!(parse_poll_rate_response(&resp), Err(USBError::ResponseUnknownValue(0xff)));
}

#[test]
fn known_polling_rate_bytes_decode() {
    for (byte, rate) in [
        (0x01, PollingRate::Hz1000),
        (0x02, PollingRate::Hz500),
        (0x04, PollingRate::Hz250),
        (0x08, PollingRate::Hz125),
    ] {
        let mut resp = RazerReport::default();
        resp.arguments[0] = byte;
        assert_eq!(parse_poll_rate_response(&resp), Ok(rate));
        assert_eq!(rate.byte(), byte);
        assert_eq!(PollingRate::try_from(byte), Ok(rate));
    }
    assert_eq!(PollingRate::try_from(0x03), Err(0x03));
    assert_eq!(PollingRate::try_from(0xff), Err(0xff));
}

#[test]
fn cmd_status_bytes_round_trip() {
    for (byte, status) in [
        (0x01, CmdStatus::Busy),
        (0x02, CmdStatus::Successful),
        (0x03, CmdStatus::Failure),
        (0x04, CmdStatus::Timeout),
        (0x05, CmdStatus::NotSupported),
    ] {
        assert_eq!(CmdStatus::try_from(byte), Ok(status));
        assert_eq!(status.byte(), byte);
    }
    assert_eq!(CmdStatus::try_from(0x00), Err(0x00));
    assert_eq!(CmdStatus::try_from(0x06), Err(0x06));
    assert_eq!(LedState::Off.byte(), 0x00);
    assert_eq!(LedState::On.byte(), 0x01);
}

#[test]
fn dpi_response_reads_big_endian_pairs() {
    let mut resp = RazerReport::default();
    resp.arguments[1] = 0x12;
    resp.arguments[2] = 0x34;
    resp.arguments[3] = 0x23;
    resp.arguments[4] = 0x45;
    assert_eq!(parse_dpi_response(&resp), (0x1234, 0x2345));
}

#[test]
fn serial_response_stops_at_first_nul() {
    let mut resp = RazerReport::default();
    for (i, b) in b"PM1234567890".iter().enumerate() {
        resp.arguments[i] = *b;
    }
    assert_eq!(parse_serial_response(&resp), "PM1234567890");
}

#[test]
fn serial_response_reads_at_most_22_bytes() {
    let mut resp = RazerReport::default();
    for i in 0..30 {
        resp.arguments[i] = b'A';
    }
    assert_eq!(parse_serial_response(&resp), "A".repeat(22));
}

#[test]
fn serial_response_substitutes_placeholder_on_invalid_utf8() {
    let mut resp = RazerReport::default();
    resp.arguments[0] = 0xff;
    resp.arguments[1] = 0xfe;
    assert_eq!(parse_serial_response(&resp), "<non-UTF8 serial>");
}

#[test]
fn empty_serial_is_empty_string() {
    let resp = RazerReport::default();
    assert_eq!(parse_serial_response(&resp), "");
}

#[test]
fn brightness_mapping_endpoints() {
    assert_eq!(percent_to_byte(0), 0);
    assert_eq!(percent_to_byte(100), 255);
    assert_eq!(byte_to_percent(0), 0);
    assert_eq!(byte_to_percent(255), 100);
}

#[test]
fn brightness_mapping_round_trips_exactly() {
    for p in 0..=100u8 {
        assert_eq!(byte_to_percent(percent_to_byte(p)), p);
    }
}

#[test]
fn brightness_clamps_over_100() {
    assert_eq!(percent_to_byte(101), 255);
    assert_eq!(percent_to_byte(255), 255);
}

#[test]
fn brightness_half_rounds_away_from_zero() {
    // 50% of 255 is 127.5, which rounds to 128
    assert_eq!(percent_to_byte(50), 128);
    assert_eq!(byte_to_percent(128), 50);
}

#[test]
fn brightness_response_maps_byte_back_to_percent() {
    let mut resp = RazerReport::default();
    resp.arguments[2] = 128;
    assert_eq!(parse_brightness_response(&resp), 50);
    resp.arguments[2] = 255;
    assert_eq!(parse_brightness_response(&resp), 100);
}
