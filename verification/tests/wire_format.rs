//! Exact wire bytes: concrete encodings, the frame header layout, the
//! command registry and the enum byte mappings.

use devproto::command_ids;
use devproto::command_ids::command_id_of;
use devproto::command_ids::message_type_of;
use devproto::wire::read_u16_le_at;
use devproto::wire::read_u32_le_at;
use devproto::BinarySerialize;
use devproto::DeviceStatus;
use devproto::Endian;
use devproto::ErrorCode;
use devproto::MessageType;
use devproto::PingCommand;
use devproto::ProtocolError;
use devproto::ProtocolHeader;
use devproto::SendDataCommand;
use devproto::SetConfigResponse;

#[test]
fn ping_command_concrete_bytes() {
    let bytes = PingCommand { timestamp: 1 }.serialize().unwrap();
    assert_eq!(bytes, vec![0x01, 0x00, 0x00, 0x00, 0x00, 0x00, 0x00, 0x00]);
}

#[test]
fn send_data_command_concrete_bytes() {
    let cmd = SendDataCommand { channel: 2, priority: 5, data: vec![0xAA, 0xBB] };
    let bytes = cmd.serialize().unwrap();
    assert_eq!(bytes, vec![0x02, 0x05, 0x02, 0x00, 0xAA, 0xBB]);
}

#[test]
fn set_config_response_concrete_bytes() {
    let resp = SetConfigResponse { success: true, error_code: ErrorCode::Timeout };
    let bytes = resp.serialize().unwrap();
    assert_eq!(bytes, vec![0x01, 0x03]);
}

#[test]
fn header_concrete_bytes_and_roundtrip() {
    let header = ProtocolHeader {
        magic: 0xBEEF,
        version: 1,
        command_id: 0x01,
        payload_length: 8,
        sequence_id: 42,
        checksum: 0,
    };
    let bytes = header.serialize().unwrap();
    assert_eq!(bytes.len(), 14);
    assert_eq!(
        bytes,
        vec![0xEF, 0xBE, 0x01, 0x01, 0x08, 0x00, 0x00, 0x00, 0x2A, 0x00, 0x00, 0x00, 0x00, 0x00]
    );
    let back = ProtocolHeader::deserialize(&bytes).unwrap();
    assert_eq!(back, header);
}

#[test]
fn command_id_constants() {
    assert_eq!(command_ids::PING_COMMAND, 0x01);
    assert_eq!(command_ids::PING_RESPONSE, 0x81);
    assert_eq!(command_ids::GET_DEVICE_INFO_COMMAND, 0x02);
    assert_eq!(command_ids::DEVICE_INFO_RESPONSE, 0x82);
    assert_eq!(command_ids::SEND_DATA_COMMAND, 0x03);
    assert_eq!(command_ids::SEND_DATA_RESPONSE, 0x83);
    assert_eq!(command_ids::SET_CONFIG_COMMAND, 0x04);
    assert_eq!(command_ids::SET_CONFIG_RESPONSE, 0x84);
    assert_eq!(command_ids::BATCH_COMMAND, 0x10);
    assert_eq!(command_ids::BATCH_RESPONSE, 0x90);
    assert_eq!(command_ids::SENSOR_DATA_RESPONSE, 0x85);
    assert_eq!(PingCommand::COMMAND_ID, command_ids::PING_COMMAND);
}

#[test]
fn registry_is_bidirectional() {
    let all = [
        MessageType::PingCommand,
        MessageType::PingResponse,
        MessageType::GetDeviceInfoCommand,
        MessageType::DeviceInfoResponse,
        MessageType::SendDataCommand,
        MessageType::SendDataResponse,
        MessageType::SetConfigCommand,
        MessageType::SetConfigResponse,
        MessageType::BatchCommand,
        MessageType::BatchResponse,
        MessageType::SensorDataResponse,
    ];
    for t in all {
        assert_eq!(message_type_of(command_id_of(t)), Some(t));
    }
    assert_eq!(message_type_of(0x00), None);
    assert_eq!(message_type_of(0x05), None);
    assert_eq!(message_type_of(0xFF), None);
}

#[test]
fn device_status_byte_mapping() {
    assert_eq!(DeviceStatus::try_from(0), Ok(DeviceStatus::Offline));
    assert_eq!(DeviceStatus::try_from(1), Ok(DeviceStatus::Online));
    assert_eq!(DeviceStatus::try_from(2), Ok(DeviceStatus::Busy));
    assert_eq!(DeviceStatus::try_from(3), Ok(DeviceStatus::Error));
    assert_eq!(DeviceStatus::try_from(4), Err(ProtocolError::InvalidEnumValue(4)));
    for status in [
        DeviceStatus::Offline,
        DeviceStatus::Online,
        DeviceStatus::Busy,
        DeviceStatus::Error,
    ] {
        assert_eq!(DeviceStatus::try_from(status.to_byte()), Ok(status));
    }
}

#[test]
fn error_code_byte_mapping() {
    assert_eq!(ErrorCode::try_from(0), Ok(ErrorCode::NoError));
    assert_eq!(ErrorCode::try_from(1), Ok(ErrorCode::InvalidCommand));
    assert_eq!(ErrorCode::try_from(2), Ok(ErrorCode::InvalidParameter));
    assert_eq!(ErrorCode::try_from(3), Ok(ErrorCode::Timeout));
    assert_eq!(ErrorCode::try_from(4), Ok(ErrorCode::DeviceError));
    assert_eq!(ErrorCode::try_from(255), Ok(ErrorCode::Unknown));
    assert_eq!(ErrorCode::try_from(5), Err(ProtocolError::InvalidEnumValue(5)));
    assert_eq!(ErrorCode::try_from(254), Err(ProtocolError::InvalidEnumValue(254)));
}

#[test]
fn endian_byte_mapping() {
    assert_eq!(Endian::try_from(0), Ok(Endian::Little));
    assert_eq!(Endian::try_from(1), Ok(Endian::Big));
    assert_eq!(Endian::try_from(2), Err(ProtocolError::InvalidEnumValue(2)));
    assert_eq!(Endian::Little.to_byte(), 0);
    assert_eq!(Endian::Big.to_byte(), 1);
}

#[test]
fn fixed_bytes_reader() {
    let data = [1u8, 2, 3, 4, 5];
    let taken: [u8; 3] = devproto::read_fixed_bytes(&data, 1).unwrap();
    assert_eq!(taken, [2, 3, 4]);
    let whole: [u8; 5] = devproto::read_fixed_bytes(&data, 0).unwrap();
    assert_eq!(whole, [1, 2, 3, 4, 5]);
    let short: Result<[u8; 4], ProtocolError> = devproto::read_fixed_bytes(&data, 2);
    assert_eq!(short, Err(ProtocolError::IoError));
}

#[test]
fn fixed_string_reader_pads_with_zeroes() {
    let data = *b"hello";
    let buf = devproto::read_fixed_string(&data, 0, 5).unwrap();
    assert_eq!(&buf[..5], b"hello");
    assert_eq!(&buf[5..], &[0u8; 27]);
    // a size beyond 32 is capped at the array's width
    let long = [0x41u8; 64];
    let capped = devproto::read_fixed_string(&long, 0, 64).unwrap();
    assert_eq!(capped, [0x41u8; 32]);
    // too few bytes for the requested size
    assert_eq!(devproto::read_fixed_string(&data, 0, 6), Err(ProtocolError::IoError));
}

#[test]
fn scalar_readers_are_little_endian() {
    let data = [0x34u8, 0x12, 0x78, 0x56, 0x34, 0x12];
    assert_eq!(read_u16_le_at(&data, 0), Ok(0x1234));
    assert_eq!(read_u32_le_at(&data, 2), Ok(0x12345678));
    assert_eq!(read_u32_le_at(&data, 3), Err(ProtocolError::IoError));
}

#[test]
fn error_message_text() {
    assert_eq!(ProtocolError::IoError.message(), "IO error");
    assert_eq!(ProtocolError::InvalidData.message(), "invalid data");
    assert_eq!(ProtocolError::BufferTooSmall.message(), "buffer too small");
    assert_eq!(ProtocolError::InvalidEnumValue(9).message(), "invalid enum value");
    assert_eq!(ProtocolError::ValueTooLarge.message(), "value too large");
}
