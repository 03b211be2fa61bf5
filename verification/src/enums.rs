use vstd::prelude::*;

use crate::error::ProtocolError;

verus! {

/// Byte-order marker.  The protocol declares it but no message field carries
/// one: every multi-byte field on the wire is little-endian.
#[derive(Debug, Clone, Copy, PartialEq, Eq, Structural)]
pub enum Endian {
    Little,
    Big,
}

impl Endian {
    /// The wire byte of each variant.
    pub open spec fn spec_to_byte(self) -> u8 {
        match self {
            Endian::Little => 0,
            Endian::Big => 1,
        }
    }

    /// The variant a wire byte names, or the offending byte when it names
    /// none.
    pub open spec fn spec_try_from(value: u8) -> Result<Endian, ProtocolError> {
        match value {
            0 => Ok(Endian::Little),
            1 => Ok(Endian::Big),
            _ => Err(ProtocolError::InvalidEnumValue(value)),
        }
    }

    pub fn to_byte(self) -> (b: u8)
        ensures
            b == self.spec_to_byte(),
    {
        match self {
            Endian::Little => 0,
            Endian::Big => 1,
        }
    }

    pub fn try_from(value: u8) -> (r: Result<Endian, ProtocolError>)
        ensures
            r == Endian::spec_try_from(value),
    {
        match value {
            0 => Ok(Endian::Little),
            1 => Ok(Endian::Big),
            _ => Err(ProtocolError::InvalidEnumValue(value)),
        }
    }

    /// Validation inverts the wire byte of every declared variant.
    pub proof fn lemma_byte_roundtrip(self)
        ensures
            Endian::spec_try_from(self.spec_to_byte()) == Ok::<Endian, ProtocolError>(self),
    {
    }
}

/// Operational state a device reports about itself.
#[derive(Debug, Clone, Copy, PartialEq, Eq, Structural)]
pub enum DeviceStatus {
    Offline,
    Online,
    Busy,
    Error,
}

impl DeviceStatus {
    /// The wire byte of each variant.
    pub open spec fn spec_to_byte(self) -> u8 {
        match self {
            DeviceStatus::Offline => 0,
            DeviceStatus::Online => 1,
            DeviceStatus::Busy => 2,
            DeviceStatus::Error => 3,
        }
    }

    /// The variant a wire byte names, or the offending byte when it names
    /// none.
    pub open spec fn spec_try_from(value: u8) -> Result<DeviceStatus, ProtocolError> {
        match value {
            0 => Ok(DeviceStatus::Offline),
            1 => Ok(DeviceStatus::Online),
            2 => Ok(DeviceStatus::Busy),
            3 => Ok(DeviceStatus::Error),
            _ => Err(ProtocolError::InvalidEnumValue(value)),
        }
    }

    pub fn to_byte(self) -> (b: u8)
        ensures
            b == self.spec_to_byte(),
    {
        match self {
            DeviceStatus::Offline => 0,
            DeviceStatus::Online => 1,
            DeviceStatus::Busy => 2,
            DeviceStatus::Error => 3,
        }
    }

    pub fn try_from(value: u8) -> (r: Result<DeviceStatus, ProtocolError>)
        ensures
            r == DeviceStatus::spec_try_from(value),
    {
        match value {
            0 => Ok(DeviceStatus::Offline),
            1 => Ok(DeviceStatus::Online),
            2 => Ok(DeviceStatus::Busy),
            3 => Ok(DeviceStatus::Error),
            _ => Err(ProtocolError::InvalidEnumValue(value)),
        }
    }

    /// Validation inverts the wire byte of every declared variant.
    pub proof fn lemma_byte_roundtrip(self)
        ensures
            DeviceStatus::spec_try_from(self.spec_to_byte()) == Ok::<DeviceStatus, ProtocolError>(
                self,
            ),
    {
    }
}

/// Outcome code a device attaches to a response.
#[derive(Debug, Clone, Copy, PartialEq, Eq, Structural)]
pub enum ErrorCode {
    NoError,
    InvalidCommand,
    InvalidParameter,
    Timeout,
    DeviceError,
    Unknown,
}

impl ErrorCode {
    /// The wire byte of each variant.
    pub open spec fn spec_to_byte(self) -> u8 {
        match self {
            ErrorCode::NoError => 0,
            ErrorCode::InvalidCommand => 1,
            ErrorCode::InvalidParameter => 2,
            ErrorCode::Timeout => 3,
            ErrorCode::DeviceError => 4,
            ErrorCode::Unknown => 255,
        }
    }

    /// The variant a wire byte names, or the offending byte when it names
    /// none.
    pub open spec fn spec_try_from(value: u8) -> Result<ErrorCode, ProtocolError> {
        match value {
            0 => Ok(ErrorCode::NoError),
            1 => Ok(ErrorCode::InvalidCommand),
            2 => Ok(ErrorCode::InvalidParameter),
            3 => Ok(ErrorCode::Timeout),
            4 => Ok(ErrorCode::DeviceError),
            255 => Ok(ErrorCode::Unknown),
            _ => Err(ProtocolError::InvalidEnumValue(value)),
        }
    }

    pub fn to_byte(self) -> (b: u8)
        ensures
            b == self.spec_to_byte(),
    {
        match self {
            ErrorCode::NoError => 0,
            ErrorCode::InvalidCommand => 1,
            ErrorCode::InvalidParameter => 2,
            ErrorCode::Timeout => 3,
            ErrorCode::DeviceError => 4,
            ErrorCode::Unknown => 255,
        }
    }

    pub fn try_from(value: u8) -> (r: Result<ErrorCode, ProtocolError>)
        ensures
            r == ErrorCode::spec_try_from(value),
    {
        match value {
            0 => Ok(ErrorCode::NoError),
            1 => Ok(ErrorCode::InvalidCommand),
            2 => Ok(ErrorCode::InvalidParameter),
            3 => Ok(ErrorCode::Timeout),
            4 => Ok(ErrorCode::DeviceError),
            255 => Ok(ErrorCode::Unknown),
            _ => Err(ProtocolError::InvalidEnumValue(value)),
        }
    }

    /// Validation inverts the wire byte of every declared variant.
    pub proof fn lemma_byte_roundtrip(self)
        ensures
            ErrorCode::spec_try_from(self.spec_to_byte()) == Ok::<ErrorCode, ProtocolError>(self),
    {
    }
}

} // verus!
