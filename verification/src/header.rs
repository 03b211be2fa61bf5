use vstd::bytes::*;
use vstd::prelude::*;

use crate::error::ProtocolError;
use crate::serialize::BinarySerialize;
use crate::wire::read_u16_le_at;
use crate::wire::read_u32_le_at;
use crate::wire::read_u8_at;
use crate::wire::write_u16_le;
use crate::wire::write_u32_le;
use crate::wire::write_u8;

verus! {

/// The fixed 14-byte frame header prefixed to every message on the wire:
/// `magic`, `version`, `command_id`, `payload_length`, `sequence_id` and
/// `checksum`, in that order, little-endian.  The checksum is carried but
/// neither computed nor verified by this layer.
#[derive(Debug, Clone, PartialEq, Eq)]
pub struct ProtocolHeader {
    pub magic: u16,
    pub version: u8,
    pub command_id: u8,
    pub payload_length: u32,
    pub sequence_id: u32,
    pub checksum: u16,
}

impl View for ProtocolHeader {
    type V = ProtocolHeader;

    open spec fn view(&self) -> ProtocolHeader {
        *self
    }
}

/// The 14 wire bytes of a frame header, fields in declared order,
/// little-endian.
pub open spec fn spec_header_bytes(v: ProtocolHeader) -> Seq<u8> {
    spec_u16_to_le_bytes(v.magic) + seq![v.version, v.command_id] + spec_u32_to_le_bytes(
        v.payload_length,
    ) + spec_u32_to_le_bytes(v.sequence_id) + spec_u16_to_le_bytes(v.checksum)
}

/// A header reads back from the front of its own encoding, whatever
/// follows it.
pub proof fn lemma_header_decode_with_trailing(v: ProtocolHeader, t: Seq<u8>)
    ensures
        spec_header_bytes(v).len() == 14,
        ProtocolHeader::spec_deserialize(spec_header_bytes(v) + t) == Ok::<
            ProtocolHeader,
            ProtocolError,
        >(v),
{
    lemma_auto_spec_u16_to_from_le_bytes();
    lemma_auto_spec_u32_to_from_le_bytes();
    let data = spec_header_bytes(v) + t;
    assert(data.subrange(0, 2) =~= spec_u16_to_le_bytes(v.magic));
    assert(data[2] == v.version);
    assert(data[3] == v.command_id);
    assert(data.subrange(4, 8) =~= spec_u32_to_le_bytes(v.payload_length));
    assert(data.subrange(8, 12) =~= spec_u32_to_le_bytes(v.sequence_id));
    assert(data.subrange(12, 14) =~= spec_u16_to_le_bytes(v.checksum));
}

impl BinarySerialize for ProtocolHeader {
    open spec fn spec_wf(v: ProtocolHeader) -> bool {
        true
    }

    open spec fn spec_min_wire_len() -> nat {
        14
    }

    open spec fn spec_serialize(v: ProtocolHeader) -> Result<Seq<u8>, ProtocolError> {
        Ok(spec_header_bytes(v))
    }

    open spec fn spec_deserialize(data: Seq<u8>) -> Result<ProtocolHeader, ProtocolError> {
        if data.len() < 14 {
            Err(ProtocolError::IoError)
        } else {
            Ok(
                ProtocolHeader {
                    magic: spec_u16_from_le_bytes(data.subrange(0, 2)),
                    version: data[2],
                    command_id: data[3],
                    payload_length: spec_u32_from_le_bytes(data.subrange(4, 8)),
                    sequence_id: spec_u32_from_le_bytes(data.subrange(8, 12)),
                    checksum: spec_u16_from_le_bytes(data.subrange(12, 14)),
                },
            )
        }
    }

    fn serialize(&self) -> (r: Result<Vec<u8>, ProtocolError>) {
        let mut out: Vec<u8> = Vec::new();
        write_u16_le(&mut out, self.magic);
        write_u8(&mut out, self.version);
        write_u8(&mut out, self.command_id);
        write_u32_le(&mut out, self.payload_length);
        write_u32_le(&mut out, self.sequence_id);
        write_u16_le(&mut out, self.checksum);
        proof {
            assert(out@ =~= spec_u16_to_le_bytes(self.magic) + seq![
                self.version,
                self.command_id,
            ] + spec_u32_to_le_bytes(self.payload_length) + spec_u32_to_le_bytes(self.sequence_id)
                + spec_u16_to_le_bytes(self.checksum));
        }
        Ok(out)
    }

    fn deserialize(data: &[u8]) -> (r: Result<ProtocolHeader, ProtocolError>) {
        if data.len() < 14 {
            return Err(ProtocolError::IoError);
        }
        let magic = match read_u16_le_at(data, 0) {
            Ok(x) => x,
            Err(e) => return Err(e),
        };
        let version = match read_u8_at(data, 2) {
            Ok(x) => x,
            Err(e) => return Err(e),
        };
        let command_id = match read_u8_at(data, 3) {
            Ok(x) => x,
            Err(e) => return Err(e),
        };
        let payload_length = match read_u32_le_at(data, 4) {
            Ok(x) => x,
            Err(e) => return Err(e),
        };
        let sequence_id = match read_u32_le_at(data, 8) {
            Ok(x) => x,
            Err(e) => return Err(e),
        };
        let checksum = match read_u16_le_at(data, 12) {
            Ok(x) => x,
            Err(e) => return Err(e),
        };
        Ok(ProtocolHeader { magic, version, command_id, payload_length, sequence_id, checksum })
    }

    proof fn lemma_serialize_deserialize(v: ProtocolHeader) {
        lemma_header_decode_with_trailing(v, Seq::empty());
        assert(spec_header_bytes(v) + Seq::<u8>::empty() =~= spec_header_bytes(v));
    }

    proof fn lemma_short_input(data: Seq<u8>) {
    }
}

} // verus!
