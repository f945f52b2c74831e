//! Builders for every supported operation: each populates the command
//! selectors, the data size and the argument bytes of a fresh request, and
//! nothing else.  The class/id pairs and argument layouts are protocol
//! constants and are pinned bit for bit by the contracts.

use vstd::prelude::*;
use crate::codes::{Led, LedEffect, LedStorage, PollingRate};
use crate::color::Rgb8;
use crate::protocol::{percent_to_byte, percent_to_byte_spec};
use crate::report::{hi16, is_request, lo16, padded, zero_args, RazerReport};

verus! {

/// A DPI axis value clipped into the device's accepted range [100, 30000].
pub open spec fn clamp_dpi(dpi: u16) -> u16 {
    if dpi < 100 {
        100u16
    } else if dpi > 30000 {
        30000u16
    } else {
        dpi
    }
}

/// A serial-number query: no meaningful arguments, 22 response bytes
/// declared.
pub fn razer_chroma_standard_get_serial() -> (r: RazerReport)
    ensures
        is_request(r, 0x00, 0x82, 0x16, zero_args()),
{
    RazerReport::init(0x00, 0x82, 0x16)
}

/// A DPI query for both axes.
pub fn razer_chroma_misc_get_dpi_xy(variable_storage: LedStorage) -> (r: RazerReport)
    ensures
        is_request(r, 0x04, 0x85, 0x07, zero_args().update(0, variable_storage.spec_byte())),
{
    let mut report = RazerReport::init(0x04, 0x85, 0x07);
    report.arguments[0] = variable_storage.byte();
    proof {
        assert(report.arguments@ =~= zero_args().update(0, variable_storage.spec_byte()));
    }
    report
}

/// A DPI set for both axes; each axis is silently clamped into
/// [100, 30000] rather than rejected, and written big-endian.
pub fn razer_chroma_misc_set_dpi_xy(
    variable_storage: LedStorage,
    dpi_x: u16,
    dpi_y: u16,
) -> (r: RazerReport)
    ensures
        is_request(
            r,
            0x04,
            0x05,
            0x07,
            padded(
                seq![
                    variable_storage.spec_byte(),
                    hi16(clamp_dpi(dpi_x)),
                    lo16(clamp_dpi(dpi_x)),
                    hi16(clamp_dpi(dpi_y)),
                    lo16(clamp_dpi(dpi_y)),
                    0u8,
                    0u8,
                ],
            ),
        ),
{
    let cx = if dpi_x < 100 {
        100
    } else if dpi_x > 30000 {
        30000
    } else {
        dpi_x
    };
    let cy = if dpi_y < 100 {
        100
    } else if dpi_y > 30000 {
        30000
    } else {
        dpi_y
    };
    let mut args: Vec<u8> = Vec::new();
    args.push(variable_storage.byte());
    args.push((cx / 256) as u8);
    args.push((cx % 256) as u8);
    args.push((cy / 256) as u8);
    args.push((cy % 256) as u8);
    args.push(0x00u8);
    args.push(0x00u8);
    let r = RazerReport::new(0x04, 0x05, args.as_slice());
    proof {
        assert(args@ =~= seq![
            variable_storage.spec_byte(),
            hi16(clamp_dpi(dpi_x)),
            lo16(clamp_dpi(dpi_x)),
            hi16(clamp_dpi(dpi_y)),
            lo16(clamp_dpi(dpi_y)),
            0u8,
            0u8,
        ]);
    }
    r
}

/// A polling-rate query.
pub fn razer_chroma_misc_get_polling_rate() -> (r: RazerReport)
    ensures
        is_request(r, 0x00, 0x85, 0x01, zero_args()),
{
    RazerReport::init(0x00, 0x85, 0x01)
}

/// A polling-rate set, carrying the rate's single code byte.
pub fn razer_chroma_misc_set_polling_rate(polling_rate: PollingRate) -> (r: RazerReport)
    ensures
        is_request(r, 0x00, 0x05, 0x01, padded(seq![polling_rate.spec_byte()])),
{
    let mut args: Vec<u8> = Vec::new();
    args.push(polling_rate.byte());
    let r = RazerReport::new(0x00, 0x05, args.as_slice());
    proof {
        assert(args@ =~= seq![polling_rate.spec_byte()]);
    }
    r
}

/// A dual-zone static-colour set: one request carries both zones' colours
/// (scroll-wheel bytes before logo bytes) for a live preview.
pub fn razer_naga_trinity_effect_static(
    variable_storage: LedStorage,
    effect: LedEffect,
    logo_rgb: Rgb8,
    scroll_rgb: Rgb8,
) -> (r: RazerReport)
    ensures
        is_request(
            r,
            0x0f,
            0x03,
            0x0b,
            padded(
                seq![
                    variable_storage.spec_byte(),
                    0u8,
                    0u8,
                    0u8,
                    effect.spec_byte(),
                    scroll_rgb.r,
                    scroll_rgb.g,
                    scroll_rgb.b,
                    logo_rgb.r,
                    logo_rgb.g,
                    logo_rgb.b,
                ],
            ),
        ),
{
    let mut args: Vec<u8> = Vec::new();
    args.push(variable_storage.byte());
    args.push(0x00u8);
    args.push(0x00u8);
    args.push(0x00u8);
    args.push(effect.byte());
    args.push(scroll_rgb.r);
    args.push(scroll_rgb.g);
    args.push(scroll_rgb.b);
    args.push(logo_rgb.r);
    args.push(logo_rgb.g);
    args.push(logo_rgb.b);
    let r = RazerReport::new(0x0f, 0x03, args.as_slice());
    proof {
        assert(args@ =~= seq![
            variable_storage.spec_byte(),
            0u8,
            0u8,
            0u8,
            effect.spec_byte(),
            scroll_rgb.r,
            scroll_rgb.g,
            scroll_rgb.b,
            logo_rgb.r,
            logo_rgb.g,
            logo_rgb.b,
        ]);
    }
    r
}

/// The shared head of the extended-matrix effect commands: storage selector,
/// zone id and effect code, with the declared size given by the caller.
pub fn razer_chroma_extended_matrix_effect_base(
    arg_size: u8,
    variable_storage: LedStorage,
    led: Led,
    effect: LedEffect,
) -> (r: RazerReport)
    ensures
        is_request(
            r,
            0x0f,
            0x02,
            arg_size,
            padded(seq![variable_storage.spec_byte(), led.spec_byte(), effect.spec_byte()]),
        ),
{
    let mut report = RazerReport::init(0x0f, 0x02, arg_size);
    report.arguments[0] = variable_storage.byte();
    report.arguments[1] = led.byte();
    report.arguments[2] = effect.byte();
    proof {
        assert(report.arguments@ =~= padded(
            seq![variable_storage.spec_byte(), led.spec_byte(), effect.spec_byte()],
        ));
    }
    report
}

/// Switches a zone's lighting effect off.
pub fn razer_chroma_extended_matrix_effect_none(
    variable_storage: LedStorage,
    led: Led,
) -> (r: RazerReport)
    ensures
        is_request(
            r,
            0x0f,
            0x02,
            0x06,
            padded(seq![variable_storage.spec_byte(), led.spec_byte(), 0u8]),
        ),
{
    razer_chroma_extended_matrix_effect_base(0x06, variable_storage, led, LedEffect::Off)
}

/// Sets a zone to a static colour.
pub fn razer_chroma_extended_matrix_effect_static(
    variable_storage: LedStorage,
    led: Led,
    rgb: Rgb8,
) -> (r: RazerReport)
    ensures
        is_request(
            r,
            0x0f,
            0x02,
            0x09,
            padded(
                seq![
                    variable_storage.spec_byte(),
                    led.spec_byte(),
                    0x01u8,
                    0u8,
                    0u8,
                    0x01u8,
                    rgb.r,
                    rgb.g,
                    rgb.b,
                ],
            ),
        ),
{
    let mut report = razer_chroma_extended_matrix_effect_base(
        0x09,
        variable_storage,
        led,
        LedEffect::Static,
    );
    report.arguments[5] = 0x01;
    report.arguments[6] = rgb.r;
    report.arguments[7] = rgb.g;
    report.arguments[8] = rgb.b;
    proof {
        assert(report.arguments@ =~= padded(
            seq![
                variable_storage.spec_byte(),
                led.spec_byte(),
                0x01u8,
                0u8,
                0u8,
                0x01u8,
                rgb.r,
                rgb.g,
                rgb.b,
            ],
        ));
    }
    report
}

/// Sets a zone's brightness; the percentage is clamped into [0, 100] and
/// written as its mapped byte.
pub fn razer_chroma_extended_matrix_brightness(
    variable_storage: LedStorage,
    led: Led,
    brightness: u8,
) -> (r: RazerReport)
    ensures
        is_request(
            r,
            0x0f,
            0x04,
            0x03,
            padded(
                seq![
                    variable_storage.spec_byte(),
                    led.spec_byte(),
                    percent_to_byte_spec(brightness),
                ],
            ),
        ),
{
    let mut args: Vec<u8> = Vec::new();
    args.push(variable_storage.byte());
    args.push(led.byte());
    args.push(percent_to_byte(brightness));
    let r = RazerReport::new(0x0f, 0x04, args.as_slice());
    proof {
        assert(args@ =~= seq![
            variable_storage.spec_byte(),
            led.spec_byte(),
            percent_to_byte_spec(brightness),
        ]);
    }
    r
}

/// A brightness query for a zone.
pub fn razer_chroma_extended_matrix_get_brightness(
    variable_storage: LedStorage,
    led: Led,
) -> (r: RazerReport)
    ensures
        is_request(
            r,
            0x0f,
            0x84,
            0x03,
            padded(seq![variable_storage.spec_byte(), led.spec_byte(), 0u8]),
        ),
{
    let mut args: Vec<u8> = Vec::new();
    args.push(variable_storage.byte());
    args.push(led.byte());
    args.push(0x00u8);
    let r = RazerReport::new(0x0f, 0x84, args.as_slice());
    proof {
        assert(args@ =~= seq![variable_storage.spec_byte(), led.spec_byte(), 0u8]);
    }
    r
}

} // verus!
