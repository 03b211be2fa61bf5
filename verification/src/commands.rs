use vstd::bytes::*;
use vstd::prelude::*;

use vstd::slice::slice_subrange;

use crate::error::ProtocolError;
use crate::frame::parse_frame_run;
use crate::frame::serialize_frame_run;
use crate::frame::spec_frame_run_bytes;
use crate::frame::spec_parse_frame_run;
use crate::frame::Frame;
use crate::frame::FrameView;
use crate::frame::lemma_parse_frame_run_roundtrip;
use crate::serialize::BinarySerialize;
use crate::wire::read_bool_at;
use crate::wire::read_bytes_at;
use crate::wire::read_u16_le_at;
use crate::wire::read_u64_le_at;
use crate::wire::read_u8_at;
use crate::wire::spec_bool_to_byte;
use crate::wire::write_bool;
use crate::wire::write_bytes;
use crate::wire::write_u16_le;
use crate::wire::write_u64_le;
use crate::wire::write_u8;

verus! {

/// Probe for liveness; answered by `PingResponse`.
#[derive(Debug, Clone, PartialEq, Eq, Structural)]
pub struct PingCommand {
    pub timestamp: u64,
}

impl PingCommand {
    pub const COMMAND_ID: u8 = 0x01;
}

impl View for PingCommand {
    type V = PingCommand;

    open spec fn view(&self) -> PingCommand {
        *self
    }
}

impl BinarySerialize for PingCommand {
    open spec fn spec_wf(v: PingCommand) -> bool {
        true
    }

    open spec fn spec_min_wire_len() -> nat {
        8
    }

    open spec fn spec_serialize(v: PingCommand) -> Result<Seq<u8>, ProtocolError> {
        Ok(spec_u64_to_le_bytes(v.timestamp))
    }

    open spec fn spec_deserialize(data: Seq<u8>) -> Result<PingCommand, ProtocolError> {
        if data.len() < 8 {
            Err(ProtocolError::IoError)
        } else {
            Ok(PingCommand { timestamp: spec_u64_from_le_bytes(data.subrange(0, 8)) })
        }
    }

    fn serialize(&self) -> (r: Result<Vec<u8>, ProtocolError>) {
        let mut out: Vec<u8> = Vec::new();
        write_u64_le(&mut out, self.timestamp);
        proof {
            assert(out@ =~= spec_u64_to_le_bytes(self.timestamp));
        }
        Ok(out)
    }

    fn deserialize(data: &[u8]) -> (r: Result<PingCommand, ProtocolError>) {
        let timestamp = match read_u64_le_at(data, 0) {
            Ok(x) => x,
            Err(e) => return Err(e),
        };
        Ok(PingCommand { timestamp })
    }

    proof fn lemma_serialize_deserialize(v: PingCommand) {
        lemma_auto_spec_u64_to_from_le_bytes();
        let bytes = spec_u64_to_le_bytes(v.timestamp);
        assert(bytes.subrange(0, 8) =~= bytes);
    }

    proof fn lemma_short_input(data: Seq<u8>) {
    }
}

/// Asks the device to report its identity and state; answered by
/// `DeviceInfoResponse`.
#[derive(Debug, Clone, PartialEq, Eq, Structural)]
pub struct GetDeviceInfoCommand {
    pub include_details: bool,
}

impl GetDeviceInfoCommand {
    pub const COMMAND_ID: u8 = 0x02;
}

impl View for GetDeviceInfoCommand {
    type V = GetDeviceInfoCommand;

    open spec fn view(&self) -> GetDeviceInfoCommand {
        *self
    }
}

impl BinarySerialize for GetDeviceInfoCommand {
    open spec fn spec_wf(v: GetDeviceInfoCommand) -> bool {
        true
    }

    open spec fn spec_min_wire_len() -> nat {
        1
    }

    open spec fn spec_serialize(v: GetDeviceInfoCommand) -> Result<Seq<u8>, ProtocolError> {
        Ok(seq![spec_bool_to_byte(v.include_details)])
    }

    open spec fn spec_deserialize(data: Seq<u8>) -> Result<GetDeviceInfoCommand, ProtocolError> {
        if data.len() < 1 {
            Err(ProtocolError::IoError)
        } else {
            Ok(GetDeviceInfoCommand { include_details: data[0] != 0 })
        }
    }

    fn serialize(&self) -> (r: Result<Vec<u8>, ProtocolError>) {
        let mut out: Vec<u8> = Vec::new();
        write_bool(&mut out, self.include_details);
        proof {
            assert(out@ =~= seq![spec_bool_to_byte(self.include_details)]);
        }
        Ok(out)
    }

    fn deserialize(data: &[u8]) -> (r: Result<GetDeviceInfoCommand, ProtocolError>) {
        let include_details = match read_bool_at(data, 0) {
            Ok(x) => x,
            Err(e) => return Err(e),
        };
        Ok(GetDeviceInfoCommand { include_details })
    }

    proof fn lemma_serialize_deserialize(v: GetDeviceInfoCommand) {
    }

    proof fn lemma_short_input(data: Seq<u8>) {
    }
}

/// Pushes an application payload to a channel; answered by
/// `SendDataResponse`.  The payload carries a two-byte length prefix, so it
/// may hold at most 65535 bytes.
#[derive(Debug, Clone, PartialEq, Eq)]
pub struct SendDataCommand {
    pub channel: u8,
    pub priority: u8,
    pub data: Vec<u8>,
}

impl SendDataCommand {
    pub const COMMAND_ID: u8 = 0x03;
}

/// The mathematical content of a `SendDataCommand`.
#[verifier::ext_equal]
pub ghost struct SendDataCommandView {
    pub channel: u8,
    pub priority: u8,
    pub data: Seq<u8>,
}

impl View for SendDataCommand {
    type V = SendDataCommandView;

    open spec fn view(&self) -> SendDataCommandView {
        SendDataCommandView { channel: self.channel, priority: self.priority, data: self.data@ }
    }
}

impl BinarySerialize for SendDataCommand {
    open spec fn spec_wf(v: SendDataCommandView) -> bool {
        true
    }

    open spec fn spec_min_wire_len() -> nat {
        4
    }

    open spec fn spec_serialize(v: SendDataCommandView) -> Result<Seq<u8>, ProtocolError> {
        if v.data.len() > 0xFFFF {
            Err(ProtocolError::ValueTooLarge)
        } else {
            Ok(
                seq![v.channel, v.priority] + spec_u16_to_le_bytes(v.data.len() as u16) + v.data,
            )
        }
    }

    open spec fn spec_deserialize(data: Seq<u8>) -> Result<SendDataCommandView, ProtocolError> {
        if data.len() < 4 {
            Err(ProtocolError::IoError)
        } else {
            let n = spec_u16_from_le_bytes(data.subrange(2, 4)) as int;
            if data.len() < 4 + n {
                Err(ProtocolError::IoError)
            } else {
                Ok(
                    SendDataCommandView {
                        channel: data[0],
                        priority: data[1],
                        data: data.subrange(4, 4 + n),
                    },
                )
            }
        }
    }

    fn serialize(&self) -> (r: Result<Vec<u8>, ProtocolError>) {
        if self.data.len() > 0xFFFF {
            return Err(ProtocolError::ValueTooLarge);
        }
        let mut out: Vec<u8> = Vec::new();
        write_u8(&mut out, self.channel);
        write_u8(&mut out, self.priority);
        write_u16_le(&mut out, self.data.len() as u16);
        write_bytes(&mut out, self.data.as_slice());
        proof {
            assert(out@ =~= seq![self.channel, self.priority] + spec_u16_to_le_bytes(
                self.data.len() as u16,
            ) + self.data@);
        }
        Ok(out)
    }

    fn deserialize(data: &[u8]) -> (r: Result<SendDataCommand, ProtocolError>) {
        let channel = match read_u8_at(data, 0) {
            Ok(x) => x,
            Err(e) => return Err(e),
        };
        let priority = match read_u8_at(data, 1) {
            Ok(x) => x,
            Err(e) => return Err(e),
        };
        let n = match read_u16_le_at(data, 2) {
            Ok(x) => x,
            Err(e) => return Err(e),
        };
        let payload = match read_bytes_at(data, 4, n as usize) {
            Ok(x) => x,
            Err(e) => return Err(e),
        };
        Ok(SendDataCommand { channel, priority, data: payload })
    }

    proof fn lemma_serialize_deserialize(v: SendDataCommandView) {
        lemma_auto_spec_u16_to_from_le_bytes();
        if v.data.len() <= 0xFFFF {
            let n = v.data.len() as u16;
            let bytes = seq![v.channel, v.priority] + spec_u16_to_le_bytes(n) + v.data;
            assert(bytes.subrange(2, 4) =~= spec_u16_to_le_bytes(n));
            assert(bytes.subrange(4, 4 + n as int) =~= v.data);
            assert(Self::spec_deserialize(bytes) matches Ok(w) && w =~= v);
        }
    }

    proof fn lemma_short_input(data: Seq<u8>) {
    }
}

/// Writes one configuration value; answered by `SetConfigResponse`.  The
/// value carries a one-byte length prefix, so it may hold at most 255 bytes.
#[derive(Debug, Clone, PartialEq, Eq)]
pub struct SetConfigCommand {
    pub config_id: u8,
    pub value_type: u8,
    pub value: Vec<u8>,
}

impl SetConfigCommand {
    pub const COMMAND_ID: u8 = 0x04;
}

/// The mathematical content of a `SetConfigCommand`.
#[verifier::ext_equal]
pub ghost struct SetConfigCommandView {
    pub config_id: u8,
    pub value_type: u8,
    pub value: Seq<u8>,
}

impl View for SetConfigCommand {
    type V = SetConfigCommandView;

    open spec fn view(&self) -> SetConfigCommandView {
        SetConfigCommandView {
            config_id: self.config_id,
            value_type: self.value_type,
            value: self.value@,
        }
    }
}

impl BinarySerialize for SetConfigCommand {
    open spec fn spec_wf(v: SetConfigCommandView) -> bool {
        true
    }

    open spec fn spec_min_wire_len() -> nat {
        3
    }

    open spec fn spec_serialize(v: SetConfigCommandView) -> Result<Seq<u8>, ProtocolError> {
        if v.value.len() > 0xFF {
            Err(ProtocolError::ValueTooLarge)
        } else {
            Ok(seq![v.config_id, v.value_type, v.value.len() as u8] + v.value)
        }
    }

    open spec fn spec_deserialize(data: Seq<u8>) -> Result<SetConfigCommandView, ProtocolError> {
        if data.len() < 3 {
            Err(ProtocolError::IoError)
        } else {
            let n = data[2] as int;
            if data.len() < 3 + n {
                Err(ProtocolError::IoError)
            } else {
                Ok(
                    SetConfigCommandView {
                        config_id: data[0],
                        value_type: data[1],
                        value: data.subrange(3, 3 + n),
                    },
                )
            }
        }
    }

    fn serialize(&self) -> (r: Result<Vec<u8>, ProtocolError>) {
        if self.value.len() > 0xFF {
            return Err(ProtocolError::ValueTooLarge);
        }
        let mut out: Vec<u8> = Vec::new();
        write_u8(&mut out, self.config_id);
        write_u8(&mut out, self.value_type);
        write_u8(&mut out, self.value.len() as u8);
        write_bytes(&mut out, self.value.as_slice());
        proof {
            assert(out@ =~= seq![self.config_id, self.value_type, self.value.len() as u8]
                + self.value@);
        }
        Ok(out)
    }

    fn deserialize(data: &[u8]) -> (r: Result<SetConfigCommand, ProtocolError>) {
        let config_id = match read_u8_at(data, 0) {
            Ok(x) => x,
            Err(e) => return Err(e),
        };
        let value_type = match read_u8_at(data, 1) {
            Ok(x) => x,
            Err(e) => return Err(e),
        };
        let n = match read_u8_at(data, 2) {
            Ok(x) => x,
            Err(e) => return Err(e),
        };
        let value = match read_bytes_at(data, 3, n as usize) {
            Ok(x) => x,
            Err(e) => return Err(e),
        };
        Ok(SetConfigCommand { config_id, value_type, value })
    }

    proof fn lemma_serialize_deserialize(v: SetConfigCommandView) {
        if v.value.len() <= 0xFF {
            let bytes = seq![v.config_id, v.value_type, v.value.len() as u8] + v.value;
            assert(bytes.subrange(3, 3 + v.value.len() as int) =~= v.value);
            assert(Self::spec_deserialize(bytes) matches Ok(w) && w =~= v);
        }
    }

    proof fn lemma_short_input(data: Seq<u8>) {
    }
}

/// Bundles several complete command frames into one message; answered by
/// `BatchResponse`.  On the wire the frames travel behind the usual
/// two-byte length prefix; in memory they are parsed, typed [`Frame`]
/// values.  The declared count and the prefixed bytes must agree, on encode
/// and on decode: any disagreement is an error, never a guess.
#[derive(Debug, Clone, PartialEq, Eq)]
pub struct BatchCommand {
    pub command_count: u8,
    pub commands: Vec<Frame>,
}

impl BatchCommand {
    pub const COMMAND_ID: u8 = 0x10;
}

/// The mathematical content of a `BatchCommand`.
#[verifier::ext_equal]
pub ghost struct BatchCommandView {
    pub command_count: u8,
    pub commands: Seq<FrameView>,
}

impl View for BatchCommand {
    type V = BatchCommandView;

    open spec fn view(&self) -> BatchCommandView {
        BatchCommandView {
            command_count: self.command_count,
            commands: self.commands@.map_values(|f: Frame| f@),
        }
    }
}

impl BinarySerialize for BatchCommand {
    open spec fn spec_wf(v: BatchCommandView) -> bool {
        true
    }

    open spec fn spec_min_wire_len() -> nat {
        3
    }

    open spec fn spec_serialize(v: BatchCommandView) -> Result<Seq<u8>, ProtocolError> {
        if v.commands.len() != v.command_count as nat {
            Err(ProtocolError::InvalidData)
        } else if !(forall|i: int|
            0 <= i < v.commands.len() ==> Frame::spec_wf(#[trigger] v.commands[i])) {
            Err(ProtocolError::InvalidData)
        } else if spec_frame_run_bytes(v.commands).len() > 0xFFFF {
            Err(ProtocolError::ValueTooLarge)
        } else {
            Ok(
                seq![v.command_count] + spec_u16_to_le_bytes(
                    spec_frame_run_bytes(v.commands).len() as u16,
                ) + spec_frame_run_bytes(v.commands),
            )
        }
    }

    open spec fn spec_deserialize(data: Seq<u8>) -> Result<BatchCommandView, ProtocolError> {
        if data.len() < 3 {
            Err(ProtocolError::IoError)
        } else {
            let n = spec_u16_from_le_bytes(data.subrange(1, 3)) as int;
            if data.len() < 3 + n {
                Err(ProtocolError::IoError)
            } else {
                match spec_parse_frame_run(data.subrange(3, 3 + n), data[0] as nat) {
                    Err(e) => Err(e),
                    Ok(frames) => Ok(
                        BatchCommandView { command_count: data[0], commands: frames },
                    ),
                }
            }
        }
    }

    fn serialize(&self) -> (r: Result<Vec<u8>, ProtocolError>) {
        if self.commands.len() != self.command_count as usize {
            return Err(ProtocolError::InvalidData);
        }
        let body = match serialize_frame_run(&self.commands) {
            Ok(b) => b,
            Err(e) => {
                proof {
                    let views = self.commands@.map_values(|f: Frame| f@);
                    let i = choose|i: int|
                        !(0 <= i < self.commands@.len() ==> Frame::spec_wf(
                            #[trigger] self.commands@[i]@,
                        ));
                    assert(views[i] == self.commands@[i]@);
                    assert(!(forall|j: int|
                        0 <= j < views.len() ==> Frame::spec_wf(#[trigger] views[j])));
                }
                return Err(e);
            },
        };
        if body.len() > 0xFFFF {
            return Err(ProtocolError::ValueTooLarge);
        }
        let mut out: Vec<u8> = Vec::new();
        write_u8(&mut out, self.command_count);
        write_u16_le(&mut out, body.len() as u16);
        write_bytes(&mut out, body.as_slice());
        proof {
            assert(out@ =~= seq![self.command_count] + spec_u16_to_le_bytes(
                spec_frame_run_bytes(self@.commands).len() as u16,
            ) + spec_frame_run_bytes(self@.commands));
        }
        Ok(out)
    }

    fn deserialize(data: &[u8]) -> (r: Result<BatchCommand, ProtocolError>) {
        let command_count = match read_u8_at(data, 0) {
            Ok(x) => x,
            Err(e) => return Err(e),
        };
        let n = match read_u16_le_at(data, 1) {
            Ok(x) => x,
            Err(e) => return Err(e),
        };
        let n_bytes = n as usize;
        if data.len() - 3 < n_bytes {
            return Err(ProtocolError::IoError);
        }
        let region = slice_subrange(data, 3, 3 + n_bytes);
        let commands = match parse_frame_run(region, command_count as usize) {
            Ok(f) => f,
            Err(e) => return Err(e),
        };
        let result = BatchCommand { command_count, commands };
        proof {
            assert(Self::spec_deserialize(data@) matches Ok(w) && w =~= result@);
        }
        Ok(result)
    }

    proof fn lemma_serialize_deserialize(v: BatchCommandView) {
        lemma_auto_spec_u16_to_from_le_bytes();
        if v.commands.len() == v.command_count as nat && (forall|i: int|
            0 <= i < v.commands.len() ==> Frame::spec_wf(#[trigger] v.commands[i]))
            && spec_frame_run_bytes(v.commands).len() <= 0xFFFF {
            let run = spec_frame_run_bytes(v.commands);
            let total = run.len() as u16;
            let bytes = seq![v.command_count] + spec_u16_to_le_bytes(total) + run;
            assert(bytes.subrange(1, 3) =~= spec_u16_to_le_bytes(total));
            assert(bytes.subrange(3, 3 + run.len() as int) =~= run);
            lemma_parse_frame_run_roundtrip(v.commands);
            assert(Self::spec_deserialize(bytes) matches Ok(w) && w =~= v);
        }
    }

    proof fn lemma_short_input(data: Seq<u8>) {
    }
}

} // verus!
