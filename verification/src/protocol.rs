//! The transaction discipline around one request/response exchange: stamping
//! a request before transmission, judging the transfer counts the device
//! reported, decoding the returned frame, validating the response against
//! the request, and interpreting the argument bytes of successful responses.
//!
//! Every function here is pure; the application performs the HID control
//! transfers and hands the outcomes in as plain values.

use vstd::prelude::*;
use vstd::arithmetic::div_mod::{
    lemma_fundamental_div_mod, lemma_fundamental_div_mod_converse, lemma_mod_pos_bound,
};
use vstd::utf8::{decode_utf8, valid_utf8};
use crate::codes::{is_known_rate, is_known_status, CmdStatus, PollingRate};
use crate::error::USBError;
use crate::report::{crc_of, wire_decode_ok, with_crc, RazerReport};

verus! {

/// The response echoes the request: `remaining_packets`, `command_class`
/// and `command_id` all match.
pub open spec fn echo_matches(request: RazerReport, response: RazerReport) -> bool {
    &&& response.remaining_packets == request.remaining_packets
    &&& response.command_class == request.command_class
    &&& response.command_id == request.command_id
}

/// The request as it goes on the wire: the transaction id stamped in, and
/// the checksum recomputed over the result.
pub open spec fn prepared(r: RazerReport, tx_id: u8) -> RazerReport {
    let stamped = RazerReport { transaction_id: tx_id, ..r };
    with_crc(stamped, crc_of(stamped))
}

/// Stamps the device's transaction id into the request and recomputes the
/// checksum, as must happen immediately before transmission.
pub fn finalize_request(request: &mut RazerReport, tx_id: u8)
    ensures
        *final(request) == prepared(*old(request), tx_id),
{
    request.transaction_id = tx_id;
    request.update_crc();
}

/// Decision after the write leg of an exchange: the device must have
/// accepted a whole frame, else the exchange stops with `IncompleteWrite`
/// and no read is attempted.
pub fn check_written(written: usize) -> (res: Result<(), USBError>)
    ensures
        res is Ok <==> written == 90,
        written != 90 ==> res == Err::<(), USBError>(USBError::IncompleteWrite(90, written)),
{
    if written != 90 {
        Err(USBError::IncompleteWrite(90, written))
    } else {
        Ok(())
    }
}

/// Decision after the read leg of an exchange: a whole frame must have come
/// back, and it is decoded into a response report.
pub fn decode_response(read: usize, buffer: &[u8]) -> (res: Result<RazerReport, USBError>)
    requires
        buffer@.len() == 90,
    ensures
        res is Ok <==> read == 90,
        res matches Ok(r) ==> wire_decode_ok(buffer@, r),
        read != 90 ==> res == Err::<RazerReport, USBError>(USBError::IncompleteRead(90, read)),
{
    if read != 90 {
        return Err(USBError::IncompleteRead(90, read));
    }
    match RazerReport::unpack(buffer) {
        Some(r) => Ok(r),
        None => Err(USBError::IncompleteRead(90, read)),
    }
}

/// Decides whether `response` is an acceptable, successful answer to
/// `request`: every echoed field must match, and the status byte must decode
/// to `Successful`; each refusal is a distinct error.
pub fn validate(request: &RazerReport, response: &RazerReport) -> (res: Result<
    RazerReport,
    USBError,
>)
    ensures
        res is Ok <==> (echo_matches(*request, *response) && response.status == 2),
        res matches Ok(r) ==> r == *response,
        !echo_matches(*request, *response) ==> res == Err::<RazerReport, USBError>(
            USBError::ResponseMismatch,
        ),
        echo_matches(*request, *response) && response.status == 1 ==> res == Err::<
            RazerReport,
            USBError,
        >(USBError::DeviceBusy),
        echo_matches(*request, *response) && response.status == 3 ==> res == Err::<
            RazerReport,
            USBError,
        >(USBError::CommandFailed),
        echo_matches(*request, *response) && response.status == 4 ==> res == Err::<
            RazerReport,
            USBError,
        >(USBError::CommandTimeout),
        echo_matches(*request, *response) && response.status == 5 ==> res == Err::<
            RazerReport,
            USBError,
        >(USBError::CommandNotSupported),
        echo_matches(*request, *response) && !is_known_status(response.status) ==> res == Err::<
            RazerReport,
            USBError,
        >(USBError::ResponseUnknownStatus(response.status)),
{
    if response.remaining_packets != request.remaining_packets
        || response.command_class != request.command_class
        || response.command_id != request.command_id {
        return Err(USBError::ResponseMismatch);
    }
    match CmdStatus::try_from(response.status) {
        Ok(CmdStatus::Busy) => Err(USBError::DeviceBusy),
        Ok(CmdStatus::Failure) => Err(USBError::CommandFailed),
        Ok(CmdStatus::NotSupported) => Err(USBError::CommandNotSupported),
        Ok(CmdStatus::Timeout) => Err(USBError::CommandTimeout),
        Ok(CmdStatus::Successful) => Ok(*response),
        Err(status) => Err(USBError::ResponseUnknownStatus(status)),
    }
}

/// A percentage clipped into [0, 100].
pub open spec fn clamp100(p: u8) -> u8 {
    if p > 100 {
        100u8
    } else {
        p
    }
}

/// The byte a brightness percentage is written as: the linear map of
/// [0, 100] onto [0, 255], rounded half away from zero, after clamping.
pub open spec fn percent_to_byte_spec(p: u8) -> u8 {
    ((255 * clamp100(p) + 50) / 100) as u8
}

/// The percentage a brightness byte is read as: the linear map of [0, 255]
/// onto [0, 100], rounded half away from zero.
pub open spec fn byte_to_percent_spec(b: u8) -> u8 {
    ((200 * b + 255) / 510) as u8
}

/// Maps a brightness percentage to its wire byte; out-of-range input is
/// clamped to 100, never rejected.
pub fn percent_to_byte(percent: u8) -> (b: u8)
    ensures
        b == percent_to_byte_spec(percent),
{
    let c: u32 = if percent > 100 {
        100
    } else {
        percent as u32
    };
    ((255 * c + 50) / 100) as u8
}

/// Maps a brightness wire byte back to a percentage.
pub fn byte_to_percent(byte: u8) -> (p: u8)
    ensures
        p == byte_to_percent_spec(byte),
        p <= 100,
{
    ((200 * (byte as u32) + 255) / 510) as u8
}

/// The two brightness maps cancel exactly: reading back a written
/// percentage returns it unchanged, and the endpoints map to the endpoints.
pub proof fn lemma_brightness_round_trip(p: u8)
    requires
        p <= 100,
    ensures
        byte_to_percent_spec(percent_to_byte_spec(p)) == p,
        percent_to_byte_spec(0) == 0,
        percent_to_byte_spec(100) == 255,
{
    let x = 255 * (p as int) + 50;
    let q = x / 100;
    let r = x % 100;
    lemma_fundamental_div_mod(x, 100);
    lemma_mod_pos_bound(x, 100);
    assert(200 * q + 255 == 510 * (p as int) + (355 - 2 * r));
    lemma_fundamental_div_mod_converse(200 * q + 255, 510, p as int, 355 - 2 * r);
    assert((200 * q + 255) / 510 == p as int);
}

/// The first index of a NUL byte, or the length where there is none.
pub open spec fn first_nul(s: Seq<u8>) -> int
    decreases s.len(),
{
    if s.len() == 0 {
        0
    } else if s[0] == 0 {
        0
    } else {
        1 + first_nul(s.subrange(1, s.len() as int))
    }
}

/// The bytes of a serial-number response: the arguments up to the first NUL,
/// looking at most 22 bytes in.
pub open spec fn serial_bytes(response: RazerReport) -> Seq<u8> {
    let t = response.arguments@.take(22);
    t.take(first_nul(t))
}

/// `first_nul` is what a forward scan finds: the index of the first zero,
/// or the length when every byte is non-zero.
proof fn lemma_first_nul_at(s: Seq<u8>, i: int)
    requires
        0 <= i <= s.len(),
        forall|j: int| 0 <= j < i ==> s[j] != 0,
        i < s.len() ==> s[i] == 0,
    ensures
        first_nul(s) == i,
    decreases i,
{
    if i == 0 {
    } else {
        lemma_first_nul_at(s.subrange(1, s.len() as int), i - 1);
    }
}

/// Relies on `String::from_utf8`: it succeeds exactly on valid UTF-8 and
/// then returns the string those bytes encode.
#[verifier::external_body]
fn utf8_to_string(bytes: Vec<u8>) -> (res: Option<String>)
    ensures
        res is Some <==> valid_utf8(bytes@),
        res matches Some(s) ==> s@ == decode_utf8(bytes@),
{
    String::from_utf8(bytes).ok()
}

/// Interprets a serial-number response: the argument bytes up to the first
/// NUL (at most 22) decoded as text, with a placeholder substituted on an
/// invalid encoding rather than failing the call.
pub fn parse_serial_response(response: &RazerReport) -> (serial: String)
    ensures
        valid_utf8(serial_bytes(*response)) ==> serial@ == decode_utf8(serial_bytes(*response)),
        !valid_utf8(serial_bytes(*response)) ==> serial@ == "<non-UTF8 serial>"@,
{
    let ghost t = response.arguments@.take(22);
    let mut bytes: Vec<u8> = Vec::new();
    let mut i: usize = 0;
    while i < 22 && response.arguments[i] != 0
        invariant
            i <= 22,
            t == response.arguments@.take(22),
            response.arguments@.len() == 80,
            bytes@ == t.take(i as int),
            forall|j: int| 0 <= j < i ==> t[j] != 0,
        decreases 22 - i,
    {
        bytes.push(response.arguments[i]);
        proof {
            assert(t.take(i + 1) =~= t.take(i as int).push(t[i as int]));
        }
        i = i + 1;
    }
    proof {
        lemma_first_nul_at(t, i as int);
        assert(bytes@ == serial_bytes(*response));
    }
    match utf8_to_string(bytes) {
        Some(s) => s,
        None => "<non-UTF8 serial>".to_owned(),
    }
}

/// Interprets a DPI query response: the X and Y values, each two bytes
/// big-endian within the argument buffer.
pub fn parse_dpi_response(response: &RazerReport) -> (dpi: (u16, u16))
    ensures
        dpi.0 == 256 * response.arguments@[1] + response.arguments@[2],
        dpi.1 == 256 * response.arguments@[3] + response.arguments@[4],
{
    let dpi_x = 256 * (response.arguments[1] as u16) + response.arguments[2] as u16;
    let dpi_y = 256 * (response.arguments[3] as u16) + response.arguments[4] as u16;
    (dpi_x, dpi_y)
}

/// Interprets a polling-rate query response: the single code byte, decoded
/// strictly; an unknown byte is an error, never a default rate.
pub fn parse_poll_rate_response(response: &RazerReport) -> (res: Result<PollingRate, USBError>)
    ensures
        res is Ok <==> is_known_rate(response.arguments@[0]),
        res matches Ok(p) ==> p.spec_byte() == response.arguments@[0],
        !is_known_rate(response.arguments@[0]) ==> res == Err::<PollingRate, USBError>(
            USBError::ResponseUnknownValue(response.arguments@[0]),
        ),
{
    match PollingRate::try_from(response.arguments[0]) {
        Ok(p) => Ok(p),
        Err(b) => Err(USBError::ResponseUnknownValue(b)),
    }
}

/// Interprets a brightness query response: the single argument byte mapped
/// back to a percentage.
pub fn parse_brightness_response(response: &RazerReport) -> (p: u8)
    ensures
        p == byte_to_percent_spec(response.arguments@[2]),
        p <= 100,
{
    byte_to_percent(response.arguments[2])
}

} // verus!
