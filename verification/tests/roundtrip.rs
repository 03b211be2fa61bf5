//! Round-trip coverage: for every message type, decoding an encoding yields
//! the identical value, including boundary values.

use devproto::BinarySerialize;
use devproto::DeviceInfoResponse;
use devproto::DeviceStatus;
use devproto::ErrorCode;
use devproto::GetDeviceInfoCommand;
use devproto::PingCommand;
use devproto::PingResponse;
use devproto::ProtocolHeader;
use devproto::SendDataCommand;
use devproto::SendDataResponse;
use devproto::SensorData;
use devproto::SensorDataResponse;
use devproto::SetConfigCommand;
use devproto::SetConfigResponse;
use devproto::Vector3D;
use devproto::BatchCommand;
use devproto::BatchResponse;
use devproto::Frame;

fn roundtrip<T: BinarySerialize + PartialEq + std::fmt::Debug>(v: &T) {
    let bytes = v.serialize().expect("encoding should succeed");
    let back = T::deserialize(&bytes).expect("decoding should succeed");
    assert_eq!(&back, v);
}

#[test]
fn ping_command_roundtrip() {
    roundtrip(&PingCommand { timestamp: 0 });
    roundtrip(&PingCommand { timestamp: 1 });
    roundtrip(&PingCommand { timestamp: u64::MAX });
}

#[test]
fn ping_response_roundtrip() {
    roundtrip(&PingResponse { request_timestamp: 0, response_timestamp: u64::MAX });
    roundtrip(&PingResponse { request_timestamp: 123456789, response_timestamp: 987654321 });
}

#[test]
fn get_device_info_command_roundtrip() {
    roundtrip(&GetDeviceInfoCommand { include_details: true });
    roundtrip(&GetDeviceInfoCommand { include_details: false });
}

#[test]
fn device_info_response_roundtrip_every_status() {
    for status in [
        DeviceStatus::Offline,
        DeviceStatus::Online,
        DeviceStatus::Busy,
        DeviceStatus::Error,
    ] {
        let mut device_name = [0u8; 32];
        device_name[..6].copy_from_slice(b"dev-42");
        let mut firmware_version = [0u8; 16];
        firmware_version[..5].copy_from_slice(b"1.2.3");
        roundtrip(
            &DeviceInfoResponse {
                status,
                device_name,
                firmware_version,
                uptime_seconds: u32::MAX,
                temperature: -40,
                battery_level: 100,
            },
        );
    }
}

#[test]
fn device_info_response_roundtrip_temperature_extremes() {
    for temperature in [i16::MIN, -1, 0, 1, i16::MAX] {
        roundtrip(
            &DeviceInfoResponse {
                status: DeviceStatus::Online,
                device_name: [0xFF; 32],
                firmware_version: [0x00; 16],
                uptime_seconds: 0,
                temperature,
                battery_level: 0,
            },
        );
    }
}

#[test]
fn send_data_command_roundtrip_empty() {
    roundtrip(&SendDataCommand { channel: 0, priority: 0, data: vec![] });
}

#[test]
fn send_data_command_roundtrip_max_len() {
    roundtrip(&SendDataCommand { channel: 255, priority: 255, data: vec![0xAB; 65535] });
}

#[test]
fn send_data_response_roundtrip_every_error_code() {
    for error_code in [
        ErrorCode::NoError,
        ErrorCode::InvalidCommand,
        ErrorCode::InvalidParameter,
        ErrorCode::Timeout,
        ErrorCode::DeviceError,
        ErrorCode::Unknown,
    ] {
        roundtrip(&SendDataResponse { success: true, error_code, bytes_written: u32::MAX });
        roundtrip(&SendDataResponse { success: false, error_code, bytes_written: 0 });
    }
}

#[test]
fn set_config_command_roundtrip_empty() {
    roundtrip(&SetConfigCommand { config_id: 7, value_type: 2, value: vec![] });
}

#[test]
fn set_config_command_roundtrip_max_len() {
    roundtrip(&SetConfigCommand { config_id: 0, value_type: 255, value: vec![0x5A; 255] });
}

#[test]
fn set_config_response_roundtrip() {
    roundtrip(&SetConfigResponse { success: true, error_code: ErrorCode::NoError });
    roundtrip(&SetConfigResponse { success: false, error_code: ErrorCode::Unknown });
}

fn frame_with_payload(command_id: u8, sequence_id: u32, payload: Vec<u8>) -> Frame {
    Frame {
        header: ProtocolHeader {
            magic: 0xBEEF,
            version: 1,
            command_id,
            payload_length: payload.len() as u32,
            sequence_id,
            checksum: 0,
        },
        payload,
    }
}

#[test]
fn frame_roundtrip() {
    roundtrip(&frame_with_payload(0x01, 7, vec![]));
    roundtrip(&frame_with_payload(0x03, 8, vec![0xAA, 0xBB, 0xCC]));
}

#[test]
fn batch_command_roundtrip() {
    roundtrip(&BatchCommand { command_count: 0, commands: vec![] });
    let ping = frame_with_payload(0x01, 1, vec![1, 0, 0, 0, 0, 0, 0, 0]);
    let info = frame_with_payload(0x02, 2, vec![0x01]);
    roundtrip(&BatchCommand { command_count: 2, commands: vec![ping, info] });
}

#[test]
fn batch_response_roundtrip() {
    roundtrip(&BatchResponse { success_count: 0, failure_count: 0, results: vec![] });
    let ok_result = frame_with_payload(0x84, 3, vec![0x01, 0x00]);
    let failed_result = frame_with_payload(0x84, 4, vec![0x00, 0x03]);
    roundtrip(
        &BatchResponse { success_count: 1, failure_count: 1, results: vec![ok_result, failed_result] },
    );
}

#[test]
fn protocol_header_roundtrip() {
    roundtrip(
        &ProtocolHeader {
            magic: 0xBEEF,
            version: 1,
            command_id: 0x01,
            payload_length: 8,
            sequence_id: 42,
            checksum: 0,
        },
    );
    roundtrip(
        &ProtocolHeader {
            magic: u16::MAX,
            version: u8::MAX,
            command_id: u8::MAX,
            payload_length: u32::MAX,
            sequence_id: u32::MAX,
            checksum: u16::MAX,
        },
    );
}

#[test]
fn vector3d_roundtrip() {
    roundtrip(&Vector3D { x: 1.0f32.to_bits(), y: (-2.5f32).to_bits(), z: 0.0f32.to_bits() });
    roundtrip(&Vector3D { x: u32::MAX, y: 0, z: f32::NAN.to_bits() });
}

#[test]
fn sensor_data_roundtrip() {
    roundtrip(
        &SensorData {
            timestamp: 1700000000,
            sensor_id: 7,
            position: Vector3D {
                x: 1.5f32.to_bits(),
                y: 2.5f32.to_bits(),
                z: 3.5f32.to_bits(),
            },
            temperature: 21.25f32.to_bits(),
            humidity: 0.55f32.to_bits(),
        },
    );
}

#[test]
fn sensor_data_response_roundtrip_empty() {
    roundtrip(&SensorDataResponse { sensor_count: 0, sensors: vec![] });
}

#[test]
fn sensor_data_response_roundtrip_two_records() {
    let first = SensorData {
        timestamp: 10,
        sensor_id: 1,
        position: Vector3D { x: 0, y: 1, z: 2 },
        temperature: 20.0f32.to_bits(),
        humidity: 0.5f32.to_bits(),
    };
    let second = SensorData {
        timestamp: u64::MAX,
        sensor_id: 255,
        position: Vector3D { x: u32::MAX, y: u32::MAX, z: u32::MAX },
        temperature: (-40.0f32).to_bits(),
        humidity: 1.0f32.to_bits(),
    };
    roundtrip(&SensorDataResponse { sensor_count: 2, sensors: vec![first, second] });
}

#[test]
fn decode_ignores_trailing_bytes() {
    let mut bytes = PingCommand { timestamp: 5 }.serialize().unwrap();
    bytes.push(0xFF);
    bytes.push(0xFF);
    let back = PingCommand::deserialize(&bytes).unwrap();
    assert_eq!(back, PingCommand { timestamp: 5 });
}
