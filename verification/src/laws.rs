use vstd::prelude::*;

use crate::commands::BatchCommand;
use crate::commands::BatchCommandView;
use crate::commands::GetDeviceInfoCommand;
use crate::commands::PingCommand;
use crate::commands::SendDataCommand;
use crate::commands::SendDataCommandView;
use crate::commands::SetConfigCommand;
use crate::commands::SetConfigCommandView;
use crate::enums::DeviceStatus;
use crate::enums::ErrorCode;
use crate::error::ProtocolError;
use crate::header::ProtocolHeader;
use crate::responses::BatchResponse;
use crate::responses::BatchResponseView;
use crate::responses::DeviceInfoResponse;
use crate::responses::DeviceInfoResponseView;
use crate::responses::PingResponse;
use crate::responses::SendDataResponse;
use crate::responses::SetConfigResponse;
use crate::sensor::SensorData;
use crate::sensor::SensorDataResponse;
use crate::sensor::SensorDataResponseView;
use crate::sensor::Vector3D;
use crate::serialize::BinarySerialize;
use crate::wire::spec_bool_to_byte;

verus! {

// Protocol-wide laws that relate the codecs to each other, stated over the
// same specification functions the codecs' own contracts use.  The round
// trip (decode inverts encode) and the bare short-input law (a short buffer
// never decodes) are carried by the `BinarySerialize` trait itself, proved
// once per implementation; the lemmas here refine the short-input law to
// the exact short-read error wherever no enum byte can pre-empt it, and pin
// down the remaining protocol-wide facts.
/// A short buffer gives exactly the short-read error: `ProtocolHeader`.
pub proof fn lemma_short_read_protocol_header(data: Seq<u8>)
    requires
        data.len() < ProtocolHeader::spec_min_wire_len(),
    ensures
        ProtocolHeader::spec_deserialize(data) == Err::<ProtocolHeader, ProtocolError>(
            ProtocolError::IoError,
        ),
{
}

/// A short buffer gives exactly the short-read error: `PingCommand`.
pub proof fn lemma_short_read_ping_command(data: Seq<u8>)
    requires
        data.len() < PingCommand::spec_min_wire_len(),
    ensures
        PingCommand::spec_deserialize(data) == Err::<PingCommand, ProtocolError>(
            ProtocolError::IoError,
        ),
{
}

/// A short buffer gives exactly the short-read error: `PingResponse`.
pub proof fn lemma_short_read_ping_response(data: Seq<u8>)
    requires
        data.len() < PingResponse::spec_min_wire_len(),
    ensures
        PingResponse::spec_deserialize(data) == Err::<PingResponse, ProtocolError>(
            ProtocolError::IoError,
        ),
{
}

/// A short buffer gives exactly the short-read error: `GetDeviceInfoCommand`.
pub proof fn lemma_short_read_get_device_info_command(data: Seq<u8>)
    requires
        data.len() < GetDeviceInfoCommand::spec_min_wire_len(),
    ensures
        GetDeviceInfoCommand::spec_deserialize(data) == Err::<GetDeviceInfoCommand, ProtocolError>(
            ProtocolError::IoError,
        ),
{
}

/// A short buffer gives exactly the short-read error: `SendDataCommand`.
pub proof fn lemma_short_read_send_data_command(data: Seq<u8>)
    requires
        data.len() < SendDataCommand::spec_min_wire_len(),
    ensures
        SendDataCommand::spec_deserialize(data) == Err::<SendDataCommandView, ProtocolError>(
            ProtocolError::IoError,
        ),
{
}

/// A short buffer gives exactly the short-read error: `SetConfigCommand`.
pub proof fn lemma_short_read_set_config_command(data: Seq<u8>)
    requires
        data.len() < SetConfigCommand::spec_min_wire_len(),
    ensures
        SetConfigCommand::spec_deserialize(data) == Err::<SetConfigCommandView, ProtocolError>(
            ProtocolError::IoError,
        ),
{
}

/// A short buffer gives exactly the short-read error: `BatchCommand`.
pub proof fn lemma_short_read_batch_command(data: Seq<u8>)
    requires
        data.len() < BatchCommand::spec_min_wire_len(),
    ensures
        BatchCommand::spec_deserialize(data) == Err::<BatchCommandView, ProtocolError>(
            ProtocolError::IoError,
        ),
{
}

/// A short buffer gives exactly the short-read error: `BatchResponse`.
pub proof fn lemma_short_read_batch_response(data: Seq<u8>)
    requires
        data.len() < BatchResponse::spec_min_wire_len(),
    ensures
        BatchResponse::spec_deserialize(data) == Err::<BatchResponseView, ProtocolError>(
            ProtocolError::IoError,
        ),
{
}

/// A short buffer gives exactly the short-read error: `Vector3D`.
pub proof fn lemma_short_read_vector3d(data: Seq<u8>)
    requires
        data.len() < Vector3D::spec_min_wire_len(),
    ensures
        Vector3D::spec_deserialize(data) == Err::<Vector3D, ProtocolError>(ProtocolError::IoError),
{
}

/// A short buffer gives exactly the short-read error: `SensorData`.
pub proof fn lemma_short_read_sensor_data(data: Seq<u8>)
    requires
        data.len() < SensorData::spec_min_wire_len(),
    ensures
        SensorData::spec_deserialize(data) == Err::<SensorData, ProtocolError>(
            ProtocolError::IoError,
        ),
{
}

/// A short buffer gives exactly the short-read error: `SensorDataResponse`.
pub proof fn lemma_short_read_sensor_data_response(data: Seq<u8>)
    requires
        data.len() < SensorDataResponse::spec_min_wire_len(),
    ensures
        SensorDataResponse::spec_deserialize(data) == Err::<SensorDataResponseView, ProtocolError>(
            ProtocolError::IoError,
        ),
{
}

/// A short buffer gives exactly the short-read error: `DeviceInfoResponse`,
/// provided the status byte, when present, names a variant — an invalid
/// status byte is reported first, see [`lemma_device_info_enum_rejection`].
pub proof fn lemma_short_read_device_info_response(data: Seq<u8>)
    requires
        data.len() < DeviceInfoResponse::spec_min_wire_len(),
        data.len() >= 1 ==> DeviceStatus::spec_try_from(data[0]) is Ok,
    ensures
        DeviceInfoResponse::spec_deserialize(data) == Err::<DeviceInfoResponseView, ProtocolError>(
            ProtocolError::IoError,
        ),
{
}

/// A short buffer gives exactly the short-read error: `SendDataResponse`,
/// provided the error-code byte, when present, names a variant.
pub proof fn lemma_short_read_send_data_response(data: Seq<u8>)
    requires
        data.len() < SendDataResponse::spec_min_wire_len(),
        data.len() >= 2 ==> ErrorCode::spec_try_from(data[1]) is Ok,
    ensures
        SendDataResponse::spec_deserialize(data) == Err::<SendDataResponse, ProtocolError>(
            ProtocolError::IoError,
        ),
{
}

/// A `DeviceInfoResponse` whose status byte names no `DeviceStatus` variant
/// is rejected with exactly that byte, whatever follows it.
pub proof fn lemma_device_info_enum_rejection(data: Seq<u8>)
    requires
        data.len() >= 1,
        DeviceStatus::spec_try_from(data[0]) is Err,
    ensures
        DeviceInfoResponse::spec_deserialize(data) == Err::<DeviceInfoResponseView, ProtocolError>(
            ProtocolError::InvalidEnumValue(data[0]),
        ),
{
}

/// Boolean decode asymmetry: encoding only ever emits `0x00` or `0x01`, but
/// decoding accepts any byte and reads every nonzero byte as true.
pub proof fn lemma_bool_decode_asymmetry(data: Seq<u8>, v: GetDeviceInfoCommand)
    requires
        data.len() >= 1,
    ensures
        GetDeviceInfoCommand::spec_deserialize(data) == Ok::<GetDeviceInfoCommand, ProtocolError>(
            GetDeviceInfoCommand { include_details: data[0] != 0 },
        ),
        GetDeviceInfoCommand::spec_serialize(v) == Ok::<Seq<u8>, ProtocolError>(
            seq![spec_bool_to_byte(v.include_details)],
        ),
        spec_bool_to_byte(v.include_details) == 0 || spec_bool_to_byte(v.include_details) == 1,
{
}

/// A frame header always encodes to exactly 14 bytes.
pub proof fn lemma_header_wire_size(v: ProtocolHeader)
    ensures
        ProtocolHeader::spec_serialize(v) matches Ok(bytes) && bytes.len() == 14,
{
    vstd::bytes::lemma_auto_spec_u16_to_from_le_bytes();
    vstd::bytes::lemma_auto_spec_u32_to_from_le_bytes();
}

/// Length overflow: a `SetConfigCommand` encodes exactly when its value
/// fits the one-byte length prefix; beyond 255 bytes it fails explicitly
/// rather than truncate.
pub proof fn lemma_set_config_length_overflow(v: SetConfigCommandView)
    ensures
        v.value.len() > 255 <==> SetConfigCommand::spec_serialize(v) == Err::<
            Seq<u8>,
            ProtocolError,
        >(ProtocolError::ValueTooLarge),
        v.value.len() <= 255 <==> SetConfigCommand::spec_serialize(v) is Ok,
{
}

/// Length overflow: a `SendDataCommand` encodes exactly when its payload
/// fits the two-byte length prefix; beyond 65535 bytes it fails explicitly
/// rather than truncate.
pub proof fn lemma_send_data_length_overflow(v: SendDataCommandView)
    ensures
        v.data.len() > 65535 <==> SendDataCommand::spec_serialize(v) == Err::<
            Seq<u8>,
            ProtocolError,
        >(ProtocolError::ValueTooLarge),
        v.data.len() <= 65535 <==> SendDataCommand::spec_serialize(v) is Ok,
{
}

} // verus!
