use vstd::prelude::*;

verus! {

// The command identifier of every message type in the catalogue.  Commands
// sit in the low range, responses carry the high bit; the convention marks
// direction but is not enforced structurally.
pub const PING_COMMAND: u8 = 0x01;

pub const PING_RESPONSE: u8 = 0x81;

pub const GET_DEVICE_INFO_COMMAND: u8 = 0x02;

pub const DEVICE_INFO_RESPONSE: u8 = 0x82;

pub const SEND_DATA_COMMAND: u8 = 0x03;

pub const SEND_DATA_RESPONSE: u8 = 0x83;

pub const SET_CONFIG_COMMAND: u8 = 0x04;

pub const SET_CONFIG_RESPONSE: u8 = 0x84;

pub const BATCH_COMMAND: u8 = 0x10;

pub const BATCH_RESPONSE: u8 = 0x90;

pub const SENSOR_DATA_RESPONSE: u8 = 0x85;

/// A name for each message type of the catalogue, so a dispatcher can pick
/// the right decoder from a frame header's command identifier.
#[derive(Debug, Clone, Copy, PartialEq, Eq, Structural)]
pub enum MessageType {
    PingCommand,
    PingResponse,
    GetDeviceInfoCommand,
    DeviceInfoResponse,
    SendDataCommand,
    SendDataResponse,
    SetConfigCommand,
    SetConfigResponse,
    BatchCommand,
    BatchResponse,
    SensorDataResponse,
}

/// The command identifier registered for a message type.
pub open spec fn spec_command_id_of(t: MessageType) -> u8 {
    match t {
        MessageType::PingCommand => 0x01,
        MessageType::PingResponse => 0x81,
        MessageType::GetDeviceInfoCommand => 0x02,
        MessageType::DeviceInfoResponse => 0x82,
        MessageType::SendDataCommand => 0x03,
        MessageType::SendDataResponse => 0x83,
        MessageType::SetConfigCommand => 0x04,
        MessageType::SetConfigResponse => 0x84,
        MessageType::BatchCommand => 0x10,
        MessageType::BatchResponse => 0x90,
        MessageType::SensorDataResponse => 0x85,
    }
}

/// The message type a command identifier is registered for, if any.
pub open spec fn spec_message_type_of(id: u8) -> Option<MessageType> {
    match id {
        0x01 => Some(MessageType::PingCommand),
        0x81 => Some(MessageType::PingResponse),
        0x02 => Some(MessageType::GetDeviceInfoCommand),
        0x82 => Some(MessageType::DeviceInfoResponse),
        0x03 => Some(MessageType::SendDataCommand),
        0x83 => Some(MessageType::SendDataResponse),
        0x04 => Some(MessageType::SetConfigCommand),
        0x84 => Some(MessageType::SetConfigResponse),
        0x10 => Some(MessageType::BatchCommand),
        0x90 => Some(MessageType::BatchResponse),
        0x85 => Some(MessageType::SensorDataResponse),
        _ => None,
    }
}

pub fn command_id_of(t: MessageType) -> (id: u8)
    ensures
        id == spec_command_id_of(t),
{
    match t {
        MessageType::PingCommand => 0x01,
        MessageType::PingResponse => 0x81,
        MessageType::GetDeviceInfoCommand => 0x02,
        MessageType::DeviceInfoResponse => 0x82,
        MessageType::SendDataCommand => 0x03,
        MessageType::SendDataResponse => 0x83,
        MessageType::SetConfigCommand => 0x04,
        MessageType::SetConfigResponse => 0x84,
        MessageType::BatchCommand => 0x10,
        MessageType::BatchResponse => 0x90,
        MessageType::SensorDataResponse => 0x85,
    }
}

pub fn message_type_of(id: u8) -> (t: Option<MessageType>)
    ensures
        t == spec_message_type_of(id),
{
    match id {
        0x01 => Some(MessageType::PingCommand),
        0x81 => Some(MessageType::PingResponse),
        0x02 => Some(MessageType::GetDeviceInfoCommand),
        0x82 => Some(MessageType::DeviceInfoResponse),
        0x03 => Some(MessageType::SendDataCommand),
        0x83 => Some(MessageType::SendDataResponse),
        0x04 => Some(MessageType::SetConfigCommand),
        0x84 => Some(MessageType::SetConfigResponse),
        0x10 => Some(MessageType::BatchCommand),
        0x90 => Some(MessageType::BatchResponse),
        0x85 => Some(MessageType::SensorDataResponse),
        _ => None,
    }
}

/// The registry is injective: looking a message type's identifier back up
/// finds that type and no other, so identifiers are unique across the
/// catalogue.
pub proof fn lemma_registry_injective(t: MessageType)
    ensures
        spec_message_type_of(spec_command_id_of(t)) == Some(t),
{
}

} // verus!
