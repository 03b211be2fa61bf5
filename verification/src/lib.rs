//! A binary wire-protocol codec for a controller/device command set.
//!
//! Every message exchanged on the wire is a fixed, ordered list of typed
//! fields, serialized little-endian with no padding.  A 14-byte frame header
//! carries the command identifier and the payload length; the command
//! registry maps identifiers to message types.  Each message type implements
//! [`BinarySerialize`], whose contracts pin the exact byte layout of
//! encoding and decoding, and whose laws prove that decoding inverts
//! encoding and that a short buffer never yields a partial value.

pub mod command_ids;
pub mod commands;
pub mod enums;
pub mod error;
pub mod frame;
pub mod header;
pub mod laws;
pub mod responses;
pub mod sensor;
pub mod serialize;
pub mod wire;

pub use command_ids::MessageType;
pub use commands::BatchCommand;
pub use commands::GetDeviceInfoCommand;
pub use commands::PingCommand;
pub use commands::SendDataCommand;
pub use commands::SetConfigCommand;
pub use enums::DeviceStatus;
pub use enums::Endian;
pub use enums::ErrorCode;
pub use error::ProtocolError;
pub use frame::Frame;
pub use header::ProtocolHeader;
pub use responses::BatchResponse;
pub use responses::DeviceInfoResponse;
pub use responses::PingResponse;
pub use responses::SendDataResponse;
pub use responses::SetConfigResponse;
pub use sensor::SensorData;
pub use sensor::SensorDataResponse;
pub use sensor::Vector3D;
pub use serialize::BinarySerialize;
pub use wire::read_fixed_bytes;
pub use wire::read_fixed_string;
