//! Firmware update: the error codes it reports and the reading of the
//! update's start record.
use vstd::prelude::*;

verus! {

/// Why an update step failed; an unknown code reads as `Unknown`.
#[derive(Debug, Clone, Copy, PartialEq, Eq, Structural)]
pub enum UpdateErrorCode {
    Unknown,
    InvalidData,
    Begin,
    Init,
    Write,
    NotStarted,
    VerifyFailed,
}

/// The code of an update error.
pub open spec fn update_error_code(e: UpdateErrorCode) -> u8 {
    match e {
        UpdateErrorCode::Unknown => 0,
        UpdateErrorCode::InvalidData => 1,
        UpdateErrorCode::Begin => 2,
        UpdateErrorCode::Init => 3,
        UpdateErrorCode::Write => 4,
        UpdateErrorCode::NotStarted => 5,
        UpdateErrorCode::VerifyFailed => 6,
    }
}

impl UpdateErrorCode {
    /// The error with code `v`; codes above 6 read as `Unknown`.
    pub fn from_primitive(v: u8) -> (r: UpdateErrorCode)
        ensures
            v <= 6 ==> update_error_code(r) == v,
            v > 6 ==> r == UpdateErrorCode::Unknown,
    {
        match v {
            1 => UpdateErrorCode::InvalidData,
            2 => UpdateErrorCode::Begin,
            3 => UpdateErrorCode::Init,
            4 => UpdateErrorCode::Write,
            5 => UpdateErrorCode::NotStarted,
            6 => UpdateErrorCode::VerifyFailed,
            _ => UpdateErrorCode::Unknown,
        }
    }

    /// The code of this error.
    pub fn code(&self) -> (r: u8)
        ensures
            r == update_error_code(*self),
    {
        match self {
            UpdateErrorCode::Unknown => 0,
            UpdateErrorCode::InvalidData => 1,
            UpdateErrorCode::Begin => 2,
            UpdateErrorCode::Init => 3,
            UpdateErrorCode::Write => 4,
            UpdateErrorCode::NotStarted => 5,
            UpdateErrorCode::VerifyFailed => 6,
        }
    }
}

/// The four bytes at `at` read as a big-endian integer.
pub open spec fn be_u32(b: Seq<u8>, at: int) -> int {
    b[at] * 0x1000000 + b[at + 1] * 0x10000 + b[at + 2] * 0x100 + b[at + 3]
}

/// The update session of a node.
pub struct Update {}

impl Update {
    /// Reads the start record of an update: the image's checksum from the
    /// first four bytes and its size from the next four, both big-endian, as
    /// `(crc, size)`. A record shorter than eight bytes is `InvalidData`.
    pub fn start_header(data: &[u8]) -> (r: Result<(u32, u32), UpdateErrorCode>)
        ensures
            data@.len() < 8 ==> r == Err::<(u32, u32), UpdateErrorCode>(UpdateErrorCode::InvalidData),
            data@.len() >= 8 ==> r == Ok::<(u32, u32), UpdateErrorCode>(
                (be_u32(data@, 0) as u32, be_u32(data@, 4) as u32),
            ),
            data@.len() >= 8 ==> be_u32(data@, 0) <= u32::MAX && be_u32(data@, 4) <= u32::MAX,
    {
        if data.len() < 8 {
            return Err(UpdateErrorCode::InvalidData);
        }
        let crc: u32 = (data[0] as u32) * 0x1000000 + (data[1] as u32) * 0x10000 + (data[2] as u32)
            * 0x100 + data[3] as u32;
        let size: u32 = (data[4] as u32) * 0x1000000 + (data[5] as u32) * 0x10000 + (data[6] as u32)
            * 0x100 + data[7] as u32;
        Ok((crc, size))
    }
}

} // verus!
