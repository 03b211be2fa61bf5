use vstd::bytes::*;
use vstd::prelude::*;

use vstd::slice::slice_subrange;

use crate::enums::DeviceStatus;
use crate::enums::ErrorCode;
use crate::error::ProtocolError;
use crate::frame::lemma_parse_frame_run_roundtrip;
use crate::frame::parse_frame_run;
use crate::frame::serialize_frame_run;
use crate::frame::spec_frame_run_bytes;
use crate::frame::spec_parse_frame_run;
use crate::frame::Frame;
use crate::frame::FrameView;
use crate::serialize::BinarySerialize;
use crate::wire::lemma_i16_le_bytes_roundtrip;
use crate::wire::read_bool_at;
use crate::wire::read_fixed_bytes;
use crate::wire::read_i16_le_at;
use crate::wire::read_u16_le_at;
use crate::wire::read_u32_le_at;
use crate::wire::read_u64_le_at;
use crate::wire::read_u8_at;
use crate::wire::spec_bool_to_byte;
use crate::wire::spec_i16_from_le_bytes;
use crate::wire::spec_i16_to_le_bytes;
use crate::wire::write_bool;
use crate::wire::write_bytes;
use crate::wire::write_i16_le;
use crate::wire::write_u16_le;
use crate::wire::write_u32_le;
use crate::wire::write_u64_le;
use crate::wire::write_u8;

verus! {

/// Answers `PingCommand`, echoing its timestamp beside the device's own.
#[derive(Debug, Clone, PartialEq, Eq, Structural)]
pub struct PingResponse {
    pub request_timestamp: u64,
    pub response_timestamp: u64,
}

impl PingResponse {
    pub const COMMAND_ID: u8 = 0x81;
}

impl View for PingResponse {
    type V = PingResponse;

    open spec fn view(&self) -> PingResponse {
        *self
    }
}

impl BinarySerialize for PingResponse {
    open spec fn spec_wf(v: PingResponse) -> bool {
        true
    }

    open spec fn spec_min_wire_len() -> nat {
        16
    }

    open spec fn spec_serialize(v: PingResponse) -> Result<Seq<u8>, ProtocolError> {
        Ok(spec_u64_to_le_bytes(v.request_timestamp) + spec_u64_to_le_bytes(v.response_timestamp))
    }

    open spec fn spec_deserialize(data: Seq<u8>) -> Result<PingResponse, ProtocolError> {
        if data.len() < 16 {
            Err(ProtocolError::IoError)
        } else {
            Ok(
                PingResponse {
                    request_timestamp: spec_u64_from_le_bytes(data.subrange(0, 8)),
                    response_timestamp: spec_u64_from_le_bytes(data.subrange(8, 16)),
                },
            )
        }
    }

    fn serialize(&self) -> (r: Result<Vec<u8>, ProtocolError>) {
        let mut out: Vec<u8> = Vec::new();
        write_u64_le(&mut out, self.request_timestamp);
        write_u64_le(&mut out, self.response_timestamp);
        proof {
            assert(out@ =~= spec_u64_to_le_bytes(self.request_timestamp) + spec_u64_to_le_bytes(
                self.response_timestamp,
            ));
        }
        Ok(out)
    }

    fn deserialize(data: &[u8]) -> (r: Result<PingResponse, ProtocolError>) {
        let request_timestamp = match read_u64_le_at(data, 0) {
            Ok(x) => x,
            Err(e) => return Err(e),
        };
        let response_timestamp = match read_u64_le_at(data, 8) {
            Ok(x) => x,
            Err(e) => return Err(e),
        };
        Ok(PingResponse { request_timestamp, response_timestamp })
    }

    proof fn lemma_serialize_deserialize(v: PingResponse) {
        lemma_auto_spec_u64_to_from_le_bytes();
        let bytes = spec_u64_to_le_bytes(v.request_timestamp) + spec_u64_to_le_bytes(
            v.response_timestamp,
        );
        assert(bytes.subrange(0, 8) =~= spec_u64_to_le_bytes(v.request_timestamp));
        assert(bytes.subrange(8, 16) =~= spec_u64_to_le_bytes(v.response_timestamp));
    }

    proof fn lemma_short_input(data: Seq<u8>) {
    }
}

/// Answers `GetDeviceInfoCommand` with the device's identity and state.
/// The name and firmware fields are raw fixed-size byte arrays; the layer
/// claims nothing about text encoding or termination.
#[derive(Debug, Clone, PartialEq)]
pub struct DeviceInfoResponse {
    pub status: DeviceStatus,
    pub device_name: [u8; 32],
    pub firmware_version: [u8; 16],
    pub uptime_seconds: u32,
    pub temperature: i16,
    pub battery_level: u8,
}

impl DeviceInfoResponse {
    pub const COMMAND_ID: u8 = 0x82;
}

/// The mathematical content of a `DeviceInfoResponse`.
#[verifier::ext_equal]
pub ghost struct DeviceInfoResponseView {
    pub status: DeviceStatus,
    pub device_name: Seq<u8>,
    pub firmware_version: Seq<u8>,
    pub uptime_seconds: u32,
    pub temperature: i16,
    pub battery_level: u8,
}

impl View for DeviceInfoResponse {
    type V = DeviceInfoResponseView;

    open spec fn view(&self) -> DeviceInfoResponseView {
        DeviceInfoResponseView {
            status: self.status,
            device_name: self.device_name@,
            firmware_version: self.firmware_version@,
            uptime_seconds: self.uptime_seconds,
            temperature: self.temperature,
            battery_level: self.battery_level,
        }
    }
}

impl BinarySerialize for DeviceInfoResponse {
    open spec fn spec_wf(v: DeviceInfoResponseView) -> bool {
        v.device_name.len() == 32 && v.firmware_version.len() == 16
    }

    open spec fn spec_min_wire_len() -> nat {
        56
    }

    open spec fn spec_serialize(v: DeviceInfoResponseView) -> Result<Seq<u8>, ProtocolError> {
        Ok(
            seq![v.status.spec_to_byte()] + v.device_name + v.firmware_version
                + spec_u32_to_le_bytes(v.uptime_seconds) + spec_i16_to_le_bytes(v.temperature)
                + seq![v.battery_level],
        )
    }

    open spec fn spec_deserialize(data: Seq<u8>) -> Result<DeviceInfoResponseView, ProtocolError> {
        if data.len() < 1 {
            Err(ProtocolError::IoError)
        } else {
            match DeviceStatus::spec_try_from(data[0]) {
                Err(e) => Err(e),
                Ok(status) => if data.len() < 56 {
                    Err(ProtocolError::IoError)
                } else {
                    Ok(
                        DeviceInfoResponseView {
                            status,
                            device_name: data.subrange(1, 33),
                            firmware_version: data.subrange(33, 49),
                            uptime_seconds: spec_u32_from_le_bytes(data.subrange(49, 53)),
                            temperature: spec_i16_from_le_bytes(data.subrange(53, 55)),
                            battery_level: data[55],
                        },
                    )
                },
            }
        }
    }

    fn serialize(&self) -> (r: Result<Vec<u8>, ProtocolError>) {
        let mut out: Vec<u8> = Vec::new();
        write_u8(&mut out, self.status.to_byte());
        write_bytes(&mut out, self.device_name.as_slice());
        write_bytes(&mut out, self.firmware_version.as_slice());
        write_u32_le(&mut out, self.uptime_seconds);
        write_i16_le(&mut out, self.temperature);
        write_u8(&mut out, self.battery_level);
        proof {
            assert(out@ =~= seq![self.status.spec_to_byte()] + self.device_name@
                + self.firmware_version@ + spec_u32_to_le_bytes(self.uptime_seconds)
                + spec_i16_to_le_bytes(self.temperature) + seq![self.battery_level]);
        }
        Ok(out)
    }

    fn deserialize(data: &[u8]) -> (r: Result<DeviceInfoResponse, ProtocolError>) {
        let status_byte = match read_u8_at(data, 0) {
            Ok(x) => x,
            Err(e) => return Err(e),
        };
        let status = match DeviceStatus::try_from(status_byte) {
            Ok(s) => s,
            Err(e) => return Err(e),
        };
        let device_name = match read_fixed_bytes::<32>(data, 1) {
            Ok(x) => x,
            Err(e) => return Err(e),
        };
        let firmware_version = match read_fixed_bytes::<16>(data, 33) {
            Ok(x) => x,
            Err(e) => return Err(e),
        };
        let uptime_seconds = match read_u32_le_at(data, 49) {
            Ok(x) => x,
            Err(e) => return Err(e),
        };
        let temperature = match read_i16_le_at(data, 53) {
            Ok(x) => x,
            Err(e) => return Err(e),
        };
        let battery_level = match read_u8_at(data, 55) {
            Ok(x) => x,
            Err(e) => return Err(e),
        };
        Ok(
            DeviceInfoResponse {
                status,
                device_name,
                firmware_version,
                uptime_seconds,
                temperature,
                battery_level,
            },
        )
    }

    proof fn lemma_serialize_deserialize(v: DeviceInfoResponseView) {
        lemma_auto_spec_u32_to_from_le_bytes();
        lemma_i16_le_bytes_roundtrip(v.temperature);
        v.status.lemma_byte_roundtrip();
        let bytes = seq![v.status.spec_to_byte()] + v.device_name + v.firmware_version
            + spec_u32_to_le_bytes(v.uptime_seconds) + spec_i16_to_le_bytes(v.temperature)
            + seq![v.battery_level];
        assert(bytes.len() == 56);
        assert(bytes[0] == v.status.spec_to_byte());
        assert(bytes.subrange(1, 33) =~= v.device_name);
        assert(bytes.subrange(33, 49) =~= v.firmware_version);
        assert(bytes.subrange(49, 53) =~= spec_u32_to_le_bytes(v.uptime_seconds));
        assert(bytes.subrange(53, 55) =~= spec_i16_to_le_bytes(v.temperature));
        assert(bytes[55] == v.battery_level);
        assert(Self::spec_deserialize(bytes) matches Ok(w) && w =~= v);
    }

    proof fn lemma_short_input(data: Seq<u8>) {
    }
}

/// Answers `SendDataCommand` with the outcome of the write.
#[derive(Debug, Clone, PartialEq, Eq, Structural)]
pub struct SendDataResponse {
    pub success: bool,
    pub error_code: ErrorCode,
    pub bytes_written: u32,
}

impl SendDataResponse {
    pub const COMMAND_ID: u8 = 0x83;
}

impl View for SendDataResponse {
    type V = SendDataResponse;

    open spec fn view(&self) -> SendDataResponse {
        *self
    }
}

impl BinarySerialize for SendDataResponse {
    open spec fn spec_wf(v: SendDataResponse) -> bool {
        true
    }

    open spec fn spec_min_wire_len() -> nat {
        6
    }

    open spec fn spec_serialize(v: SendDataResponse) -> Result<Seq<u8>, ProtocolError> {
        Ok(
            seq![spec_bool_to_byte(v.success), v.error_code.spec_to_byte()]
                + spec_u32_to_le_bytes(v.bytes_written),
        )
    }

    open spec fn spec_deserialize(data: Seq<u8>) -> Result<SendDataResponse, ProtocolError> {
        if data.len() < 2 {
            Err(ProtocolError::IoError)
        } else {
            match ErrorCode::spec_try_from(data[1]) {
                Err(e) => Err(e),
                Ok(error_code) => if data.len() < 6 {
                    Err(ProtocolError::IoError)
                } else {
                    Ok(
                        SendDataResponse {
                            success: data[0] != 0,
                            error_code,
                            bytes_written: spec_u32_from_le_bytes(data.subrange(2, 6)),
                        },
                    )
                },
            }
        }
    }

    fn serialize(&self) -> (r: Result<Vec<u8>, ProtocolError>) {
        let mut out: Vec<u8> = Vec::new();
        write_bool(&mut out, self.success);
        write_u8(&mut out, self.error_code.to_byte());
        write_u32_le(&mut out, self.bytes_written);
        proof {
            assert(out@ =~= seq![
                spec_bool_to_byte(self.success),
                self.error_code.spec_to_byte(),
            ] + spec_u32_to_le_bytes(self.bytes_written));
        }
        Ok(out)
    }

    fn deserialize(data: &[u8]) -> (r: Result<SendDataResponse, ProtocolError>) {
        let success = match read_bool_at(data, 0) {
            Ok(x) => x,
            Err(e) => return Err(e),
        };
        let code_byte = match read_u8_at(data, 1) {
            Ok(x) => x,
            Err(e) => return Err(e),
        };
        let error_code = match ErrorCode::try_from(code_byte) {
            Ok(c) => c,
            Err(e) => return Err(e),
        };
        let bytes_written = match read_u32_le_at(data, 2) {
            Ok(x) => x,
            Err(e) => return Err(e),
        };
        Ok(SendDataResponse { success, error_code, bytes_written })
    }

    proof fn lemma_serialize_deserialize(v: SendDataResponse) {
        lemma_auto_spec_u32_to_from_le_bytes();
        v.error_code.lemma_byte_roundtrip();
        let bytes = seq![spec_bool_to_byte(v.success), v.error_code.spec_to_byte()]
            + spec_u32_to_le_bytes(v.bytes_written);
        assert(bytes.len() == 6);
        assert(bytes.subrange(2, 6) =~= spec_u32_to_le_bytes(v.bytes_written));
    }

    proof fn lemma_short_input(data: Seq<u8>) {
    }
}

/// Answers `SetConfigCommand` with the outcome of the write.
#[derive(Debug, Clone, PartialEq, Eq, Structural)]
pub struct SetConfigResponse {
    pub success: bool,
    pub error_code: ErrorCode,
}

impl SetConfigResponse {
    pub const COMMAND_ID: u8 = 0x84;
}

impl View for SetConfigResponse {
    type V = SetConfigResponse;

    open spec fn view(&self) -> SetConfigResponse {
        *self
    }
}

impl BinarySerialize for SetConfigResponse {
    open spec fn spec_wf(v: SetConfigResponse) -> bool {
        true
    }

    open spec fn spec_min_wire_len() -> nat {
        2
    }

    open spec fn spec_serialize(v: SetConfigResponse) -> Result<Seq<u8>, ProtocolError> {
        Ok(seq![spec_bool_to_byte(v.success), v.error_code.spec_to_byte()])
    }

    open spec fn spec_deserialize(data: Seq<u8>) -> Result<SetConfigResponse, ProtocolError> {
        if data.len() < 2 {
            Err(ProtocolError::IoError)
        } else {
            match ErrorCode::spec_try_from(data[1]) {
                Err(e) => Err(e),
                Ok(error_code) => Ok(SetConfigResponse { success: data[0] != 0, error_code }),
            }
        }
    }

    fn serialize(&self) -> (r: Result<Vec<u8>, ProtocolError>) {
        let mut out: Vec<u8> = Vec::new();
        write_bool(&mut out, self.success);
        write_u8(&mut out, self.error_code.to_byte());
        proof {
            assert(out@ =~= seq![
                spec_bool_to_byte(self.success),
                self.error_code.spec_to_byte(),
            ]);
        }
        Ok(out)
    }

    fn deserialize(data: &[u8]) -> (r: Result<SetConfigResponse, ProtocolError>) {
        let success = match read_bool_at(data, 0) {
            Ok(x) => x,
            Err(e) => return Err(e),
        };
        let code_byte = match read_u8_at(data, 1) {
            Ok(x) => x,
            Err(e) => return Err(e),
        };
        let error_code = match ErrorCode::try_from(code_byte) {
            Ok(c) => c,
            Err(e) => return Err(e),
        };
        Ok(SetConfigResponse { success, error_code })
    }

    proof fn lemma_serialize_deserialize(v: SetConfigResponse) {
        v.error_code.lemma_byte_roundtrip();
    }

    proof fn lemma_short_input(data: Seq<u8>) {
    }
}

/// Answers `BatchCommand` with per-batch counts and the bundled result
/// frames, parsed and typed like the commands they answer.  A result
/// travels for every sub-command, so the run must hold exactly
/// `success_count + failure_count` frames, on encode and on decode; any
/// disagreement with the prefixed bytes is an error, never a guess.
#[derive(Debug, Clone, PartialEq, Eq)]
pub struct BatchResponse {
    pub success_count: u8,
    pub failure_count: u8,
    pub results: Vec<Frame>,
}

impl BatchResponse {
    pub const COMMAND_ID: u8 = 0x90;
}

/// The mathematical content of a `BatchResponse`.
#[verifier::ext_equal]
pub ghost struct BatchResponseView {
    pub success_count: u8,
    pub failure_count: u8,
    pub results: Seq<FrameView>,
}

impl View for BatchResponse {
    type V = BatchResponseView;

    open spec fn view(&self) -> BatchResponseView {
        BatchResponseView {
            success_count: self.success_count,
            failure_count: self.failure_count,
            results: self.results@.map_values(|f: Frame| f@),
        }
    }
}

impl BinarySerialize for BatchResponse {
    open spec fn spec_wf(v: BatchResponseView) -> bool {
        true
    }

    open spec fn spec_min_wire_len() -> nat {
        4
    }

    open spec fn spec_serialize(v: BatchResponseView) -> Result<Seq<u8>, ProtocolError> {
        if v.results.len() != v.success_count as nat + v.failure_count as nat {
            Err(ProtocolError::InvalidData)
        } else if !(forall|i: int|
            0 <= i < v.results.len() ==> Frame::spec_wf(#[trigger] v.results[i])) {
            Err(ProtocolError::InvalidData)
        } else if spec_frame_run_bytes(v.results).len() > 0xFFFF {
            Err(ProtocolError::ValueTooLarge)
        } else {
            Ok(
                seq![v.success_count, v.failure_count] + spec_u16_to_le_bytes(
                    spec_frame_run_bytes(v.results).len() as u16,
                ) + spec_frame_run_bytes(v.results),
            )
        }
    }

    open spec fn spec_deserialize(data: Seq<u8>) -> Result<BatchResponseView, ProtocolError> {
        if data.len() < 4 {
            Err(ProtocolError::IoError)
        } else {
            let n = spec_u16_from_le_bytes(data.subrange(2, 4)) as int;
            if data.len() < 4 + n {
                Err(ProtocolError::IoError)
            } else {
                match spec_parse_frame_run(
                    data.subrange(4, 4 + n),
                    (data[0] + data[1]) as nat,
                ) {
                    Err(e) => Err(e),
                    Ok(frames) => Ok(
                        BatchResponseView {
                            success_count: data[0],
                            failure_count: data[1],
                            results: frames,
                        },
                    ),
                }
            }
        }
    }

    fn serialize(&self) -> (r: Result<Vec<u8>, ProtocolError>) {
        if self.results.len() != self.success_count as usize + self.failure_count as usize {
            return Err(ProtocolError::InvalidData);
        }
        let body = match serialize_frame_run(&self.results) {
            Ok(b) => b,
            Err(e) => {
                proof {
                    let views = self.results@.map_values(|f: Frame| f@);
                    let i = choose|i: int|
                        !(0 <= i < self.results@.len() ==> Frame::spec_wf(
                            #[trigger] self.results@[i]@,
                        ));
                    assert(views[i] == self.results@[i]@);
                    assert(!(forall|j: int|
                        0 <= j < views.len() ==> Frame::spec_wf(#[trigger] views[j])));
                }
                return Err(e);
            },
        };
        if body.len() > 0xFFFF {
            return Err(ProtocolError::ValueTooLarge);
        }
        let mut out: Vec<u8> = Vec::new();
        write_u8(&mut out, self.success_count);
        write_u8(&mut out, self.failure_count);
        write_u16_le(&mut out, body.len() as u16);
        write_bytes(&mut out, body.as_slice());
        proof {
            assert(out@ =~= seq![self.success_count, self.failure_count] + spec_u16_to_le_bytes(
                spec_frame_run_bytes(self@.results).len() as u16,
            ) + spec_frame_run_bytes(self@.results));
        }
        Ok(out)
    }

    fn deserialize(data: &[u8]) -> (r: Result<BatchResponse, ProtocolError>) {
        let success_count = match read_u8_at(data, 0) {
            Ok(x) => x,
            Err(e) => return Err(e),
        };
        let failure_count = match read_u8_at(data, 1) {
            Ok(x) => x,
            Err(e) => return Err(e),
        };
        let n = match read_u16_le_at(data, 2) {
            Ok(x) => x,
            Err(e) => return Err(e),
        };
        let n_bytes = n as usize;
        if data.len() - 4 < n_bytes {
            return Err(ProtocolError::IoError);
        }
        let region = slice_subrange(data, 4, 4 + n_bytes);
        let results = match parse_frame_run(
            region,
            success_count as usize + failure_count as usize,
        ) {
            Ok(f) => f,
            Err(e) => return Err(e),
        };
        let result = BatchResponse { success_count, failure_count, results };
        proof {
            assert(Self::spec_deserialize(data@) matches Ok(w) && w =~= result@);
        }
        Ok(result)
    }

    proof fn lemma_serialize_deserialize(v: BatchResponseView) {
        lemma_auto_spec_u16_to_from_le_bytes();
        if v.results.len() == v.success_count as nat + v.failure_count as nat && (forall|i: int|
            0 <= i < v.results.len() ==> Frame::spec_wf(#[trigger] v.results[i]))
            && spec_frame_run_bytes(v.results).len() <= 0xFFFF {
            let run = spec_frame_run_bytes(v.results);
            let total = run.len() as u16;
            let bytes = seq![v.success_count, v.failure_count] + spec_u16_to_le_bytes(total)
                + run;
            assert(bytes.subrange(2, 4) =~= spec_u16_to_le_bytes(total));
            assert(bytes.subrange(4, 4 + run.len() as int) =~= run);
            lemma_parse_frame_run_roundtrip(v.results);
            assert(Self::spec_deserialize(bytes) matches Ok(w) && w =~= v);
        }
    }

    proof fn lemma_short_input(data: Seq<u8>) {
    }
}

} // verus!
