//! The extension boards a node can carry, by their one-byte code.
use vstd::prelude::*;

verus! {

/// Which extension a node runs; an unknown code reads as `Unknown`.
#[derive(Debug, Clone, Copy, PartialEq, Eq, Structural)]
pub enum Extension {
    Off,
    Button,
    Sensors,
    Pwm,
    Relais,
    LegacySensors,
    SoftwareRollershutter,
    HardwareRollershutter,
    Unknown,
}

/// The code of an extension.
pub open spec fn extension_code(e: Extension) -> u8 {
    match e {
        Extension::Off => 0,
        Extension::Button => 1,
        Extension::Sensors => 2,
        Extension::Pwm => 3,
        Extension::Relais => 4,
        Extension::LegacySensors => 5,
        Extension::SoftwareRollershutter => 6,
        Extension::HardwareRollershutter => 7,
        Extension::Unknown => 255,
    }
}

impl Extension {
    /// The extension with code `v`; `Unknown` when no extension has that code.
    pub fn from_primitive(v: u8) -> (r: Extension)
        ensures
            (exists|e: Extension| extension_code(e) == v) ==> extension_code(r) == v,
            !(exists|e: Extension| extension_code(e) == v) ==> r == Extension::Unknown,
    {
        let r = match v {
            0 => Extension::Off,
            1 => Extension::Button,
            2 => Extension::Sensors,
            3 => Extension::Pwm,
            4 => Extension::Relais,
            5 => Extension::LegacySensors,
            6 => Extension::SoftwareRollershutter,
            7 => Extension::HardwareRollershutter,
            _ => Extension::Unknown,
        };
        assert(!(exists|e: Extension| extension_code(e) == v) ==> r == Extension::Unknown) by {
            if r != Extension::Unknown {
                assert(extension_code(r) == v);
            }
        }
        r
    }

    /// The code of this extension.
    pub fn code(&self) -> (r: u8)
        ensures
            r == extension_code(*self),
    {
        match self {
            Extension::Off => 0,
            Extension::Button => 1,
            Extension::Sensors => 2,
            Extension::Pwm => 3,
            Extension::Relais => 4,
            Extension::LegacySensors => 5,
            Extension::SoftwareRollershutter => 6,
            Extension::HardwareRollershutter => 7,
            Extension::Unknown => 255,
        }
    }
}

} // verus!
