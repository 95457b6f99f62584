//! The kinds of node on the bus, by their one-byte code.
use vstd::prelude::*;

verus! {

/// What a node is; an unknown code reads as `Unknown`.
#[derive(Debug, Clone, Copy, PartialEq, Eq, Structural)]
pub enum DeviceType {
    Unknown,
    LegacyRelais,
    LegacyLamps,
    Button,
    Relais,
    Gateway,
    Rollershutter,
    SSR,
}

/// The code of a device type.
pub open spec fn device_code(d: DeviceType) -> u8 {
    match d {
        DeviceType::Unknown => 0,
        DeviceType::LegacyRelais => 2,
        DeviceType::LegacyLamps => 3,
        DeviceType::Button => 4,
        DeviceType::Relais => 5,
        DeviceType::Gateway => 6,
        DeviceType::Rollershutter => 7,
        DeviceType::SSR => 8,
    }
}

impl DeviceType {
    /// The device type with code `v`; `Unknown` when no type has that code.
    pub fn from_primitive(v: u8) -> (r: DeviceType)
        ensures
            (exists|d: DeviceType| device_code(d) == v) ==> device_code(r) == v,
            !(exists|d: DeviceType| device_code(d) == v) ==> r == DeviceType::Unknown,
    {
        let r = match v {
            2 => DeviceType::LegacyRelais,
            3 => DeviceType::LegacyLamps,
            4 => DeviceType::Button,
            5 => DeviceType::Relais,
            6 => DeviceType::Gateway,
            7 => DeviceType::Rollershutter,
            8 => DeviceType::SSR,
            _ => DeviceType::Unknown,
        };
        assert(!(exists|d: DeviceType| device_code(d) == v) ==> r == DeviceType::Unknown) by {
            if r != DeviceType::Unknown {
                assert(device_code(r) == v);
            }
        }
        r
    }

    /// The code of this device type.
    pub fn code(&self) -> (r: u8)
        ensures
            r == device_code(*self),
    {
        match self {
            DeviceType::Unknown => 0,
            DeviceType::LegacyRelais => 2,
            DeviceType::LegacyLamps => 3,
            DeviceType::Button => 4,
            DeviceType::Relais => 5,
            DeviceType::Gateway => 6,
            DeviceType::Rollershutter => 7,
            DeviceType::SSR => 8,
        }
    }
}

} // verus!
