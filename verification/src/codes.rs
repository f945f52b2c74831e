//! The closed byte-code sets of the protocol: LED addressing, effects,
//! command status and polling rate.  Each enum carries its wire byte through
//! an explicit `byte` method, and the sets that are read back from the device
//! (`CmdStatus`, `PollingRate`) also decode, rejecting unknown bytes.

use vstd::prelude::*;

verus! {

#[derive(Clone, Copy, PartialEq, Eq, Structural, Debug)]
pub enum LedState {
    Off,
    On,
}

impl LedState {
    pub open spec fn spec_byte(self) -> u8 {
        match self {
            LedState::Off => 0x00,
            LedState::On => 0x01,
        }
    }

    /// The byte this state is written as on the wire.
    pub fn byte(self) -> (b: u8)
        ensures
            b == self.spec_byte(),
    {
        match self {
            LedState::Off => 0x00,
            LedState::On => 0x01,
        }
    }
}

#[derive(Clone, Copy, PartialEq, Eq, Structural, Debug)]
pub enum LedStorage {
    NoStore,
    VarStore,
}

impl LedStorage {
    pub open spec fn spec_byte(self) -> u8 {
        match self {
            LedStorage::NoStore => 0x00,
            LedStorage::VarStore => 0x01,
        }
    }

    /// The byte this storage selector is written as on the wire.
    pub fn byte(self) -> (b: u8)
        ensures
            b == self.spec_byte(),
    {
        match self {
            LedStorage::NoStore => 0x00,
            LedStorage::VarStore => 0x01,
        }
    }
}

/// An addressable lighting element of a device.
#[derive(Clone, Copy, PartialEq, Eq, Structural, Debug)]
pub enum Led {
    Zero,
    ScrollWheel,
    Battery,
    Logo,
    Backlight,
    Macro,
    Game,
    RedProfile,
    GreenProfile,
    BlueProfile,
    RightSide,
    LeftSide,
    ArgbCh1,
    ArgbCh2,
    ArgbCh3,
    ArgbCh4,
    ArgbCh5,
    ArgbCh6,
    Charging,
    FastCharging,
    FullyCharged,
}

impl Led {
    pub open spec fn spec_byte(self) -> u8 {
        match self {
            Led::Zero => 0x00,
            Led::ScrollWheel => 0x01,
            Led::Battery => 0x03,
            Led::Logo => 0x04,
            Led::Backlight => 0x05,
            Led::Macro => 0x07,
            Led::Game => 0x08,
            Led::RedProfile => 0x0C,
            Led::GreenProfile => 0x0D,
            Led::BlueProfile => 0x0E,
            Led::RightSide => 0x10,
            Led::LeftSide => 0x11,
            Led::ArgbCh1 => 0x1A,
            Led::ArgbCh2 => 0x1B,
            Led::ArgbCh3 => 0x1C,
            Led::ArgbCh4 => 0x1D,
            Led::ArgbCh5 => 0x1E,
            Led::ArgbCh6 => 0x1F,
            Led::Charging => 0x20,
            Led::FastCharging => 0x21,
            Led::FullyCharged => 0x22,
        }
    }

    /// The zone id this LED is addressed by on the wire.
    pub fn byte(self) -> (b: u8)
        ensures
            b == self.spec_byte(),
    {
        match self {
            Led::Zero => 0x00,
            Led::ScrollWheel => 0x01,
            Led::Battery => 0x03,
            Led::Logo => 0x04,
            Led::Backlight => 0x05,
            Led::Macro => 0x07,
            Led::Game => 0x08,
            Led::RedProfile => 0x0C,
            Led::GreenProfile => 0x0D,
            Led::BlueProfile => 0x0E,
            Led::RightSide => 0x10,
            Led::LeftSide => 0x11,
            Led::ArgbCh1 => 0x1A,
            Led::ArgbCh2 => 0x1B,
            Led::ArgbCh3 => 0x1C,
            Led::ArgbCh4 => 0x1D,
            Led::ArgbCh5 => 0x1E,
            Led::ArgbCh6 => 0x1F,
            Led::Charging => 0x20,
            Led::FastCharging => 0x21,
            Led::FullyCharged => 0x22,
        }
    }
}

/// A lighting effect code.
#[derive(Clone, Copy, PartialEq, Eq, Structural, Debug)]
pub enum LedEffect {
    Off,
    Static,
    Breathing,
    Spectrum,
    Wave,
    Reactive,
    Starlight,
    CustomFrame,
}

impl LedEffect {
    pub open spec fn spec_byte(self) -> u8 {
        match self {
            LedEffect::Off => 0x00,
            LedEffect::Static => 0x01,
            LedEffect::Breathing => 0x02,
            LedEffect::Spectrum => 0x03,
            LedEffect::Wave => 0x04,
            LedEffect::Reactive => 0x05,
            LedEffect::Starlight => 0x07,
            LedEffect::CustomFrame => 0x08,
        }
    }

    /// The effect code this effect is written as on the wire.
    pub fn byte(self) -> (b: u8)
        ensures
            b == self.spec_byte(),
    {
        match self {
            LedEffect::Off => 0x00,
            LedEffect::Static => 0x01,
            LedEffect::Breathing => 0x02,
            LedEffect::Spectrum => 0x03,
            LedEffect::Wave => 0x04,
            LedEffect::Reactive => 0x05,
            LedEffect::Starlight => 0x07,
            LedEffect::CustomFrame => 0x08,
        }
    }
}

/// The status a device reports in the first byte of a response.
#[derive(Clone, Copy, PartialEq, Eq, Structural, Debug)]
pub enum CmdStatus {
    Busy,
    Successful,
    Failure,
    Timeout,
    NotSupported,
}

/// True of the bytes that decode to a `CmdStatus`.
pub open spec fn is_known_status(byte: u8) -> bool {
    1 <= byte <= 5
}

impl CmdStatus {
    pub open spec fn spec_byte(self) -> u8 {
        match self {
            CmdStatus::Busy => 0x01,
            CmdStatus::Successful => 0x02,
            CmdStatus::Failure => 0x03,
            CmdStatus::Timeout => 0x04,
            CmdStatus::NotSupported => 0x05,
        }
    }

    /// The byte this status is reported as on the wire.
    pub fn byte(self) -> (b: u8)
        ensures
            b == self.spec_byte(),
    {
        match self {
            CmdStatus::Busy => 0x01,
            CmdStatus::Successful => 0x02,
            CmdStatus::Failure => 0x03,
            CmdStatus::Timeout => 0x04,
            CmdStatus::NotSupported => 0x05,
        }
    }

    /// Decodes a status byte; an unknown byte is handed back unchanged.
    pub fn try_from(byte: u8) -> (res: Result<CmdStatus, u8>)
        ensures
            res is Ok <==> is_known_status(byte),
            res matches Ok(s) ==> s.spec_byte() == byte,
            res matches Err(b) ==> b == byte,
    {
        match byte {
            0x01 => Ok(CmdStatus::Busy),
            0x02 => Ok(CmdStatus::Successful),
            0x03 => Ok(CmdStatus::Failure),
            0x04 => Ok(CmdStatus::Timeout),
            0x05 => Ok(CmdStatus::NotSupported),
            _ => Err(byte),
        }
    }
}

/// A device-supported polling frequency, carried as a single-byte code.
#[derive(Clone, Copy, PartialEq, Eq, Structural, Debug)]
pub enum PollingRate {
    Hz1000,
    Hz500,
    Hz250,
    Hz125,
}

/// True of the bytes that decode to a `PollingRate`.
pub open spec fn is_known_rate(byte: u8) -> bool {
    byte == 0x01 || byte == 0x02 || byte == 0x04 || byte == 0x08
}

impl PollingRate {
    pub open spec fn spec_byte(self) -> u8 {
        match self {
            PollingRate::Hz1000 => 0x01,
            PollingRate::Hz500 => 0x02,
            PollingRate::Hz250 => 0x04,
            PollingRate::Hz125 => 0x08,
        }
    }

    /// The code this rate is written as on the wire.
    pub fn byte(self) -> (b: u8)
        ensures
            b == self.spec_byte(),
    {
        match self {
            PollingRate::Hz1000 => 0x01,
            PollingRate::Hz500 => 0x02,
            PollingRate::Hz250 => 0x04,
            PollingRate::Hz125 => 0x08,
        }
    }

    /// Decodes a polling-rate code; an unknown byte is handed back unchanged,
    /// never mapped to a default rate.
    pub fn try_from(flag: u8) -> (res: Result<PollingRate, u8>)
        ensures
            res is Ok <==> is_known_rate(flag),
            res matches Ok(p) ==> p.spec_byte() == flag,
            res matches Err(b) ==> b == flag,
    {
        match flag {
            0x01 => Ok(PollingRate::Hz1000),
            0x02 => Ok(PollingRate::Hz500),
            0x04 => Ok(PollingRate::Hz250),
            0x08 => Ok(PollingRate::Hz125),
            _ => Err(flag),
        }
    }
}

} // verus!
