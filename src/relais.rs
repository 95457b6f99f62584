//! How a relay node drives its outputs, by its one-byte configuration code.
use vstd::prelude::*;

verus! {

/// The output mode of a relay node.
#[derive(Debug, Clone, Copy, PartialEq, Eq, Structural)]
pub enum RelaisMode {
    Off,
    Relais,
    SoftwareRollershutter,
    HardwareRollershutter,
}

/// The mode with a given code, if any.
pub open spec fn relais_mode_of(v: u8) -> Option<RelaisMode> {
    if v == 0 {
        Some(RelaisMode::Off)
    } else if v == 1 {
        Some(RelaisMode::Relais)
    } else if v == 2 {
        Some(RelaisMode::SoftwareRollershutter)
    } else if v == 3 {
        Some(RelaisMode::HardwareRollershutter)
    } else {
        None
    }
}

impl RelaisMode {
    /// The mode with code `v`; codes above 3 are refused.
    pub fn try_from_primitive(v: u8) -> (r: Option<RelaisMode>)
        ensures
            r == relais_mode_of(v),
    {
        match v {
            0 => Some(RelaisMode::Off),
            1 => Some(RelaisMode::Relais),
            2 => Some(RelaisMode::SoftwareRollershutter),
            3 => Some(RelaisMode::HardwareRollershutter),
            _ => None,
        }
    }

    /// The code of this mode.
    pub fn code(&self) -> (r: u8)
        ensures
            relais_mode_of(r) == Some(*self),
    {
        match self {
            RelaisMode::Off => 0,
            RelaisMode::Relais => 1,
            RelaisMode::SoftwareRollershutter => 2,
            RelaisMode::HardwareRollershutter => 3,
        }
    }
}

} // verus!
