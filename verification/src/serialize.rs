use vstd::prelude::*;

use crate::error::ProtocolError;

verus! {

/// The uniform capability every message type of the protocol implements:
/// encode a structured value to its exact byte sequence, and decode a byte
/// sequence back, all-or-nothing.
///
/// Each implementation fixes two specification functions that pin the wire
/// format down completely: [`spec_serialize`] maps the mathematical view of
/// a value to its byte sequence (or the error owed when the value does not
/// fit its layout), and [`spec_deserialize`] maps any byte sequence to the
/// decoded view or the exact error.  The executable methods must agree with
/// those functions on every input, and the two laws must be proved by every
/// implementation: decoding inverts encoding, and an input shorter than the
/// type's minimum wire length never yields a value.
///
/// [`spec_serialize`]: BinarySerialize::spec_serialize
/// [`spec_deserialize`]: BinarySerialize::spec_deserialize
pub trait BinarySerialize: View + Sized {
    /// The views that actual values of the type can take; encoding is only
    /// owed to round-trip on these.
    spec fn spec_wf(v: Self::V) -> bool;

    /// The fewest bytes any successful decode of the type consumes.
    spec fn spec_min_wire_len() -> nat;

    /// The exact byte sequence a view encodes to, or the error owed.
    spec fn spec_serialize(v: Self::V) -> Result<Seq<u8>, ProtocolError>;

    /// The exact decode of a byte sequence: the view read from its front,
    /// or the first error the field sequence runs into.  Trailing bytes
    /// beyond the fields are ignored.
    spec fn spec_deserialize(data: Seq<u8>) -> Result<Self::V, ProtocolError>;

    /// Encodes `self`, in declared field order, little-endian, no padding.
    fn serialize(&self) -> (r: Result<Vec<u8>, ProtocolError>)
        ensures
            match r {
                Ok(bytes) => Self::spec_serialize(self@) == Ok::<Seq<u8>, ProtocolError>(bytes@),
                Err(e) => Self::spec_serialize(self@) == Err::<Seq<u8>, ProtocolError>(e),
            },
    ;

    /// Decodes a value from the front of `data`, all-or-nothing.
    fn deserialize(data: &[u8]) -> (r: Result<Self, ProtocolError>)
        ensures
            match r {
                Ok(v) => Self::spec_deserialize(data@) == Ok::<Self::V, ProtocolError>(v@),
                Err(e) => Self::spec_deserialize(data@) == Err::<Self::V, ProtocolError>(e),
            },
    ;

    /// Round trip: whenever a well-formed view encodes at all, decoding the
    /// encoding yields the identical view.
    proof fn lemma_serialize_deserialize(v: Self::V)
        requires
            Self::spec_wf(v),
        ensures
            Self::spec_serialize(v) matches Ok(bytes) ==> Self::spec_deserialize(bytes)
                == Ok::<Self::V, ProtocolError>(v),
    ;

    /// Short input: a buffer below the type's minimum wire length never
    /// decodes to a value, so no partial struct can escape.
    proof fn lemma_short_input(data: Seq<u8>)
        requires
            data.len() < Self::spec_min_wire_len(),
        ensures
            Self::spec_deserialize(data) is Err,
    ;
}

} // verus!
