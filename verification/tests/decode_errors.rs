//! Failure paths: short buffers, invalid enum bytes, boolean decode
//! asymmetry, length-prefix overflow and count mismatches.

use devproto::BatchCommand;
use devproto::BatchResponse;
use devproto::BinarySerialize;
use devproto::Frame;
use devproto::DeviceInfoResponse;
use devproto::GetDeviceInfoCommand;
use devproto::PingCommand;
use devproto::PingResponse;
use devproto::ProtocolError;
use devproto::ProtocolHeader;
use devproto::SendDataCommand;
use devproto::SendDataResponse;
use devproto::SensorData;
use devproto::SensorDataResponse;
use devproto::SetConfigCommand;
use devproto::SetConfigResponse;
use devproto::Vector3D;

#[test]
fn short_buffer_fails_with_io_error() {
    assert_eq!(PingCommand::deserialize(&[]).unwrap_err(), ProtocolError::IoError);
    assert_eq!(PingCommand::deserialize(&[0u8; 7]).unwrap_err(), ProtocolError::IoError);
    assert_eq!(PingResponse::deserialize(&[0u8; 15]).unwrap_err(), ProtocolError::IoError);
    assert_eq!(GetDeviceInfoCommand::deserialize(&[]).unwrap_err(), ProtocolError::IoError);
    assert_eq!(SendDataResponse::deserialize(&[1]).unwrap_err(), ProtocolError::IoError);
    assert_eq!(SetConfigResponse::deserialize(&[1]).unwrap_err(), ProtocolError::IoError);
    assert_eq!(ProtocolHeader::deserialize(&[0u8; 13]).unwrap_err(), ProtocolError::IoError);
    assert_eq!(Vector3D::deserialize(&[0u8; 11]).unwrap_err(), ProtocolError::IoError);
    assert_eq!(SensorData::deserialize(&[0u8; 28]).unwrap_err(), ProtocolError::IoError);
    assert_eq!(SensorDataResponse::deserialize(&[0u8; 2]).unwrap_err(), ProtocolError::IoError);
}

#[test]
fn short_buffer_with_valid_prefix_fails_with_io_error() {
    // a valid status byte, but far fewer than the 56 bytes the fields need
    assert_eq!(DeviceInfoResponse::deserialize(&[1u8; 40]).unwrap_err(), ProtocolError::IoError);
    // a valid error-code byte, but no room for the u32 that follows
    assert_eq!(
        SendDataResponse::deserialize(&[1, 0, 0xAA]).unwrap_err(),
        ProtocolError::IoError
    );
}

#[test]
fn length_prefix_larger_than_remainder_fails_with_io_error() {
    // prefix says five payload bytes, only three follow
    let bytes = [2u8, 5, 5, 0, 0xAA, 0xBB, 0xCC];
    assert_eq!(SendDataCommand::deserialize(&bytes).unwrap_err(), ProtocolError::IoError);
    let bytes = [7u8, 2, 9, 0xAA];
    assert_eq!(SetConfigCommand::deserialize(&bytes).unwrap_err(), ProtocolError::IoError);
    let bytes = [1u8, 4, 0, 0xAA];
    assert_eq!(BatchCommand::deserialize(&bytes).unwrap_err(), ProtocolError::IoError);
    let bytes = [1u8, 0, 4, 0, 0xAA];
    assert_eq!(BatchResponse::deserialize(&bytes).unwrap_err(), ProtocolError::IoError);
}

#[test]
fn device_info_rejects_invalid_status_byte() {
    let err = DeviceInfoResponse::deserialize(&[0x7F]).unwrap_err();
    assert_eq!(err, ProtocolError::InvalidEnumValue(0x7F));
    // the invalid byte is reported even when the rest of the struct is there
    let mut full = [0u8; 56];
    full[0] = 0x7F;
    assert_eq!(
        DeviceInfoResponse::deserialize(&full).unwrap_err(),
        ProtocolError::InvalidEnumValue(0x7F)
    );
}

#[test]
fn responses_reject_invalid_error_code_byte() {
    assert_eq!(
        SendDataResponse::deserialize(&[1, 9, 0, 0, 0, 0]).unwrap_err(),
        ProtocolError::InvalidEnumValue(9)
    );
    assert_eq!(
        SetConfigResponse::deserialize(&[0, 200]).unwrap_err(),
        ProtocolError::InvalidEnumValue(200)
    );
}

#[test]
fn boolean_decode_treats_any_nonzero_as_true() {
    let cmd = GetDeviceInfoCommand::deserialize(&[0x02]).unwrap();
    assert!(cmd.include_details);
    let cmd = GetDeviceInfoCommand::deserialize(&[0xFF]).unwrap();
    assert!(cmd.include_details);
    let cmd = GetDeviceInfoCommand::deserialize(&[0x00]).unwrap();
    assert!(!cmd.include_details);
    // encode is narrower than decode: only 0x00 and 0x01 are ever emitted
    assert_eq!(GetDeviceInfoCommand { include_details: true }.serialize().unwrap(), vec![0x01]);
    assert_eq!(GetDeviceInfoCommand { include_details: false }.serialize().unwrap(), vec![0x00]);
}

#[test]
fn set_config_value_over_prefix_range_fails() {
    let cmd = SetConfigCommand { config_id: 1, value_type: 2, value: vec![0u8; 300] };
    assert_eq!(cmd.serialize().unwrap_err(), ProtocolError::ValueTooLarge);
    // the largest value that still fits encodes fine
    let cmd = SetConfigCommand { config_id: 1, value_type: 2, value: vec![0u8; 255] };
    assert_eq!(cmd.serialize().unwrap().len(), 3 + 255);
}

#[test]
fn send_data_payload_over_prefix_range_fails() {
    let cmd = SendDataCommand { channel: 0, priority: 0, data: vec![0u8; 65536] };
    assert_eq!(cmd.serialize().unwrap_err(), ProtocolError::ValueTooLarge);
}

fn frame_of(payload: Vec<u8>) -> Frame {
    Frame {
        header: ProtocolHeader {
            magic: 0xBEEF,
            version: 1,
            command_id: 0x01,
            payload_length: payload.len() as u32,
            sequence_id: 0,
            checksum: 0,
        },
        payload,
    }
}

#[test]
fn batch_runs_over_prefix_range_fail() {
    let big = frame_of(vec![0u8; 40000]);
    let cmd = BatchCommand { command_count: 2, commands: vec![big.clone(), big.clone()] };
    assert_eq!(cmd.serialize().unwrap_err(), ProtocolError::ValueTooLarge);
    let resp = BatchResponse { success_count: 2, failure_count: 0, results: vec![big.clone(), big] };
    assert_eq!(resp.serialize().unwrap_err(), ProtocolError::ValueTooLarge);
}

#[test]
fn batch_count_mismatch_fails_to_encode() {
    let cmd = BatchCommand { command_count: 2, commands: vec![frame_of(vec![])] };
    assert_eq!(cmd.serialize().unwrap_err(), ProtocolError::InvalidData);
    let resp = BatchResponse { success_count: 1, failure_count: 1, results: vec![frame_of(vec![])] };
    assert_eq!(resp.serialize().unwrap_err(), ProtocolError::InvalidData);
}

#[test]
fn frame_payload_disagreeing_with_header_fails_to_encode() {
    let mut frame = frame_of(vec![0xAA, 0xBB]);
    frame.header.payload_length = 3;
    assert_eq!(frame.serialize().unwrap_err(), ProtocolError::InvalidData);
    let cmd = BatchCommand { command_count: 1, commands: vec![frame] };
    assert_eq!(cmd.serialize().unwrap_err(), ProtocolError::InvalidData);
}

#[test]
fn frame_short_buffer_fails_with_io_error() {
    assert_eq!(Frame::deserialize(&[0u8; 13]).unwrap_err(), ProtocolError::IoError);
    // a full header that declares more payload than follows
    let frame = frame_of(vec![0xAA, 0xBB]);
    let bytes = frame.serialize().unwrap();
    assert_eq!(Frame::deserialize(&bytes[..15]).unwrap_err(), ProtocolError::IoError);
}

#[test]
fn batch_count_disagreeing_with_bytes_fails_to_decode() {
    let good = BatchCommand { command_count: 1, commands: vec![frame_of(vec![0xAA])] };
    let mut bytes = good.serialize().unwrap();
    // count says two frames, the prefixed region holds exactly one
    bytes[0] = 2;
    assert_eq!(BatchCommand::deserialize(&bytes).unwrap_err(), ProtocolError::IoError);
    // count says none, the region still holds one: leftover bytes
    bytes[0] = 0;
    assert_eq!(BatchCommand::deserialize(&bytes).unwrap_err(), ProtocolError::InvalidData);
}

#[test]
fn sensor_count_mismatch_fails_to_encode() {
    let record = SensorData {
        timestamp: 1,
        sensor_id: 2,
        position: Vector3D { x: 0, y: 0, z: 0 },
        temperature: 0,
        humidity: 0,
    };
    let resp = SensorDataResponse { sensor_count: 2, sensors: vec![record] };
    assert_eq!(resp.serialize().unwrap_err(), ProtocolError::InvalidData);
}

#[test]
fn sensor_count_mismatch_fails_to_decode() {
    // count says two records, prefix carries bytes for exactly one
    let record = SensorData {
        timestamp: 1,
        sensor_id: 2,
        position: Vector3D { x: 0, y: 0, z: 0 },
        temperature: 0,
        humidity: 0,
    };
    let good = SensorDataResponse { sensor_count: 1, sensors: vec![record] };
    let mut bytes = good.serialize().unwrap();
    bytes[0] = 2;
    assert_eq!(SensorDataResponse::deserialize(&bytes).unwrap_err(), ProtocolError::InvalidData);
}
