use vstd::prelude::*;

verus! {

/// The ways an encode or a decode can fail.
///
/// Decoding is all-or-nothing: the first failing field aborts the whole
/// decode and the caller never sees a partially filled value.
#[derive(Debug, Clone, Copy, PartialEq, Eq)]
pub enum ProtocolError {
    /// Too few bytes remain to satisfy a read, or the destination could not
    /// be written.
    IoError,
    /// Structurally valid bytes that contradict each other, such as a record
    /// count that disagrees with the byte length of the records beside it.
    InvalidData,
    /// A destination buffer without room for the encoding.  No codec in this
    /// crate produces it today; it is kept as a distinct kind for callers
    /// that add true capacity checks.
    BufferTooSmall,
    /// A byte that names no variant of a closed enumeration; carries the
    /// offending byte.
    InvalidEnumValue(u8),
    /// A variable-length field whose byte count exceeds what its declared
    /// length prefix can represent.
    ValueTooLarge,
}

impl ProtocolError {
    /// A short description of the error kind.
    pub fn message(&self) -> (m: &'static str)
        ensures
            m@ == match *self {
                ProtocolError::IoError => "IO error"@,
                ProtocolError::InvalidData => "invalid data"@,
                ProtocolError::BufferTooSmall => "buffer too small"@,
                ProtocolError::InvalidEnumValue(_) => "invalid enum value"@,
                ProtocolError::ValueTooLarge => "value too large"@,
            },
    {
        match self {
            ProtocolError::IoError => "IO error",
            ProtocolError::InvalidData => "invalid data",
            ProtocolError::BufferTooSmall => "buffer too small",
            ProtocolError::InvalidEnumValue(_) => "invalid enum value",
            ProtocolError::ValueTooLarge => "value too large",
        }
    }
}

} // verus!
