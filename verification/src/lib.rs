//! Protocol engine for a vendor-specific USB-HID mouse: the fixed-layout
//! 90-byte report, its XOR checksum, request/response validation, and the
//! builders and interpreters for the supported commands.
//!
//! Everything here is pure computation over plain values; the actual HID
//! control transfers are performed by the surrounding application, which
//! feeds the raw bytes and transfer counts back into these functions.

pub mod codes;
pub mod color;
pub mod commands;
pub mod error;
pub mod protocol;
pub mod report;
