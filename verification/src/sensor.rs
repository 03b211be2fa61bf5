use vstd::bytes::*;
use vstd::prelude::*;
use vstd::slice::slice_subrange;

use crate::error::ProtocolError;
use crate::serialize::BinarySerialize;
use crate::wire::read_u16_le_at;
use crate::wire::read_u32_le_at;
use crate::wire::read_u64_le_at;
use crate::wire::read_u8_at;
use crate::wire::write_u16_le;
use crate::wire::write_u32_le;
use crate::wire::write_u64_le;
use crate::wire::write_u8;

verus! {

/// A position reading: three IEEE-754 single-precision components, each
/// carried by its raw 32-bit pattern so that this layer stays within
/// integer arithmetic.  Convert with `f32::from_bits`/`f32::to_bits` at the
/// boundary that consumes the value; the wire bytes are identical either
/// way, little-endian per component.
#[derive(Debug, Clone, PartialEq, Eq, Structural)]
pub struct Vector3D {
    pub x: u32,
    pub y: u32,
    pub z: u32,
}

/// The 12 wire bytes of a `Vector3D`: x, y, z, each little-endian.
pub open spec fn spec_vector3d_bytes(v: Vector3D) -> Seq<u8> {
    spec_u32_to_le_bytes(v.x) + spec_u32_to_le_bytes(v.y) + spec_u32_to_le_bytes(v.z)
}

/// The `Vector3D` carried by the first 12 bytes of `data`.
pub open spec fn spec_vector3d_from(data: Seq<u8>) -> Vector3D
    recommends
        data.len() >= 12,
{
    Vector3D {
        x: spec_u32_from_le_bytes(data.subrange(0, 4)),
        y: spec_u32_from_le_bytes(data.subrange(4, 8)),
        z: spec_u32_from_le_bytes(data.subrange(8, 12)),
    }
}

pub proof fn lemma_vector3d_bytes_len(v: Vector3D)
    ensures
        spec_vector3d_bytes(v).len() == 12,
{
    lemma_auto_spec_u32_to_from_le_bytes();
}

/// Reading back the 12 wire bytes of a `Vector3D` yields the value written.
pub proof fn lemma_vector3d_roundtrip(v: Vector3D)
    ensures
        spec_vector3d_from(spec_vector3d_bytes(v)) == v,
{
    lemma_auto_spec_u32_to_from_le_bytes();
    let bytes = spec_vector3d_bytes(v);
    assert(bytes.subrange(0, 4) =~= spec_u32_to_le_bytes(v.x));
    assert(bytes.subrange(4, 8) =~= spec_u32_to_le_bytes(v.y));
    assert(bytes.subrange(8, 12) =~= spec_u32_to_le_bytes(v.z));
}

impl View for Vector3D {
    type V = Vector3D;

    open spec fn view(&self) -> Vector3D {
        *self
    }
}

impl BinarySerialize for Vector3D {
    open spec fn spec_wf(v: Vector3D) -> bool {
        true
    }

    open spec fn spec_min_wire_len() -> nat {
        12
    }

    open spec fn spec_serialize(v: Vector3D) -> Result<Seq<u8>, ProtocolError> {
        Ok(spec_vector3d_bytes(v))
    }

    open spec fn spec_deserialize(data: Seq<u8>) -> Result<Vector3D, ProtocolError> {
        if data.len() < 12 {
            Err(ProtocolError::IoError)
        } else {
            Ok(spec_vector3d_from(data))
        }
    }

    fn serialize(&self) -> (r: Result<Vec<u8>, ProtocolError>) {
        let mut out: Vec<u8> = Vec::new();
        write_u32_le(&mut out, self.x);
        write_u32_le(&mut out, self.y);
        write_u32_le(&mut out, self.z);
        proof {
            assert(out@ =~= spec_vector3d_bytes(*self));
        }
        Ok(out)
    }

    fn deserialize(data: &[u8]) -> (r: Result<Vector3D, ProtocolError>) {
        let x = match read_u32_le_at(data, 0) {
            Ok(v) => v,
            Err(e) => return Err(e),
        };
        let y = match read_u32_le_at(data, 4) {
            Ok(v) => v,
            Err(e) => return Err(e),
        };
        let z = match read_u32_le_at(data, 8) {
            Ok(v) => v,
            Err(e) => return Err(e),
        };
        Ok(Vector3D { x, y, z })
    }

    proof fn lemma_serialize_deserialize(v: Vector3D) {
        lemma_vector3d_bytes_len(v);
        lemma_vector3d_roundtrip(v);
    }

    proof fn lemma_short_input(data: Seq<u8>) {
    }
}

/// One sample from one sensor: when it was taken, which sensor took it,
/// where the sensor was, and two IEEE-754 single-precision readings carried
/// by their raw 32-bit patterns, as in [`Vector3D`].
#[derive(Debug, Clone, PartialEq, Eq, Structural)]
pub struct SensorData {
    pub timestamp: u64,
    pub sensor_id: u8,
    pub position: Vector3D,
    pub temperature: u32,
    pub humidity: u32,
}

/// The 29 wire bytes of a `SensorData` record, fields in declared order,
/// the embedded vector inline and not length-prefixed.
pub open spec fn spec_sensor_data_bytes(s: SensorData) -> Seq<u8> {
    spec_u64_to_le_bytes(s.timestamp) + seq![s.sensor_id] + spec_vector3d_bytes(s.position)
        + spec_u32_to_le_bytes(s.temperature) + spec_u32_to_le_bytes(s.humidity)
}

/// The `SensorData` carried by the first 29 bytes of `data`.
pub open spec fn spec_sensor_data_from(data: Seq<u8>) -> SensorData
    recommends
        data.len() >= 29,
{
    SensorData {
        timestamp: spec_u64_from_le_bytes(data.subrange(0, 8)),
        sensor_id: data[8],
        position: spec_vector3d_from(data.subrange(9, 21)),
        temperature: spec_u32_from_le_bytes(data.subrange(21, 25)),
        humidity: spec_u32_from_le_bytes(data.subrange(25, 29)),
    }
}

pub proof fn lemma_sensor_data_bytes_len(s: SensorData)
    ensures
        spec_sensor_data_bytes(s).len() == 29,
{
    lemma_auto_spec_u64_to_from_le_bytes();
    lemma_vector3d_bytes_len(s.position);
    lemma_auto_spec_u32_to_from_le_bytes();
}

/// Reading back the 29 wire bytes of a `SensorData` yields the record
/// written.
pub proof fn lemma_sensor_data_roundtrip(s: SensorData)
    ensures
        spec_sensor_data_from(spec_sensor_data_bytes(s)) == s,
{
    lemma_auto_spec_u64_to_from_le_bytes();
    lemma_auto_spec_u32_to_from_le_bytes();
    lemma_vector3d_bytes_len(s.position);
    lemma_vector3d_roundtrip(s.position);
    let bytes = spec_sensor_data_bytes(s);
    assert(bytes.subrange(0, 8) =~= spec_u64_to_le_bytes(s.timestamp));
    assert(bytes[8] == s.sensor_id);
    assert(bytes.subrange(9, 21) =~= spec_vector3d_bytes(s.position));
    assert(bytes.subrange(21, 25) =~= spec_u32_to_le_bytes(s.temperature));
    assert(bytes.subrange(25, 29) =~= spec_u32_to_le_bytes(s.humidity));
}

impl View for SensorData {
    type V = SensorData;

    open spec fn view(&self) -> SensorData {
        *self
    }
}

impl BinarySerialize for SensorData {
    open spec fn spec_wf(v: SensorData) -> bool {
        true
    }

    open spec fn spec_min_wire_len() -> nat {
        29
    }

    open spec fn spec_serialize(v: SensorData) -> Result<Seq<u8>, ProtocolError> {
        Ok(spec_sensor_data_bytes(v))
    }

    open spec fn spec_deserialize(data: Seq<u8>) -> Result<SensorData, ProtocolError> {
        if data.len() < 29 {
            Err(ProtocolError::IoError)
        } else {
            Ok(spec_sensor_data_from(data))
        }
    }

    fn serialize(&self) -> (r: Result<Vec<u8>, ProtocolError>) {
        let mut out: Vec<u8> = Vec::new();
        write_u64_le(&mut out, self.timestamp);
        write_u8(&mut out, self.sensor_id);
        write_u32_le(&mut out, self.position.x);
        write_u32_le(&mut out, self.position.y);
        write_u32_le(&mut out, self.position.z);
        write_u32_le(&mut out, self.temperature);
        write_u32_le(&mut out, self.humidity);
        proof {
            assert(out@ =~= spec_sensor_data_bytes(*self));
        }
        Ok(out)
    }

    fn deserialize(data: &[u8]) -> (r: Result<SensorData, ProtocolError>) {
        let timestamp = match read_u64_le_at(data, 0) {
            Ok(v) => v,
            Err(e) => return Err(e),
        };
        let sensor_id = match read_u8_at(data, 8) {
            Ok(v) => v,
            Err(e) => return Err(e),
        };
        let x = match read_u32_le_at(data, 9) {
            Ok(v) => v,
            Err(e) => return Err(e),
        };
        let y = match read_u32_le_at(data, 13) {
            Ok(v) => v,
            Err(e) => return Err(e),
        };
        let z = match read_u32_le_at(data, 17) {
            Ok(v) => v,
            Err(e) => return Err(e),
        };
        let temperature = match read_u32_le_at(data, 21) {
            Ok(v) => v,
            Err(e) => return Err(e),
        };
        let humidity = match read_u32_le_at(data, 25) {
            Ok(v) => v,
            Err(e) => return Err(e),
        };
        proof {
            if data@.len() >= 29 {
                assert(data@.subrange(9, 21).subrange(0, 4) =~= data@.subrange(9, 13));
                assert(data@.subrange(9, 21).subrange(4, 8) =~= data@.subrange(13, 17));
                assert(data@.subrange(9, 21).subrange(8, 12) =~= data@.subrange(17, 21));
            }
        }
        Ok(SensorData { timestamp, sensor_id, position: Vector3D { x, y, z }, temperature, humidity })
    }

    proof fn lemma_serialize_deserialize(v: SensorData) {
        lemma_sensor_data_bytes_len(v);
        lemma_sensor_data_roundtrip(v);
    }

    proof fn lemma_short_input(data: Seq<u8>) {
    }
}

/// The wire bytes of a run of sensor records: each record's 29-byte
/// encoding, in order, with nothing between them.
pub open spec fn spec_sensor_run_bytes(s: Seq<SensorData>) -> Seq<u8>
    decreases s.len(),
{
    if s.len() == 0 {
        Seq::empty()
    } else {
        spec_sensor_run_bytes(s.drop_last()) + spec_sensor_data_bytes(s.last())
    }
}

pub proof fn lemma_sensor_run_bytes_len(s: Seq<SensorData>)
    ensures
        spec_sensor_run_bytes(s).len() == 29 * s.len(),
    decreases s.len(),
{
    if s.len() > 0 {
        lemma_sensor_run_bytes_len(s.drop_last());
        lemma_sensor_data_bytes_len(s.last());
    }
}

/// Record `i` of a run occupies bytes `29 * i .. 29 * i + 29` of its
/// encoding.
pub proof fn lemma_sensor_run_bytes_at(s: Seq<SensorData>, i: int)
    requires
        0 <= i < s.len(),
    ensures
        spec_sensor_run_bytes(s).subrange(29 * i, 29 * i + 29) == spec_sensor_data_bytes(s[i]),
    decreases s.len(),
{
    lemma_sensor_run_bytes_len(s);
    lemma_sensor_run_bytes_len(s.drop_last());
    lemma_sensor_data_bytes_len(s.last());
    if i == s.len() - 1 {
        assert(spec_sensor_run_bytes(s).subrange(29 * i, 29 * i + 29) =~= spec_sensor_data_bytes(
            s.last(),
        ));
    } else {
        lemma_sensor_run_bytes_at(s.drop_last(), i);
        assert(spec_sensor_run_bytes(s).subrange(29 * i, 29 * i + 29) =~= spec_sensor_run_bytes(
            s.drop_last(),
        ).subrange(29 * i, 29 * i + 29));
    }
}

/// An unsolicited report of sensor samples.  On the wire the records travel
/// behind the usual two-byte length prefix; in memory they are parsed,
/// typed records.  The declared count and the prefixed byte length must
/// agree, on encode and on decode: a run of `n` records occupies exactly
/// `29 * n` bytes, and any disagreement is an error, never a guess.
#[derive(Debug, Clone, PartialEq, Eq)]
pub struct SensorDataResponse {
    pub sensor_count: u8,
    pub sensors: Vec<SensorData>,
}

impl SensorDataResponse {
    pub const COMMAND_ID: u8 = 0x85;
}

/// The mathematical content of a `SensorDataResponse`.
#[verifier::ext_equal]
pub ghost struct SensorDataResponseView {
    pub sensor_count: u8,
    pub sensors: Seq<SensorData>,
}

impl View for SensorDataResponse {
    type V = SensorDataResponseView;

    open spec fn view(&self) -> SensorDataResponseView {
        SensorDataResponseView { sensor_count: self.sensor_count, sensors: self.sensors@ }
    }
}

impl BinarySerialize for SensorDataResponse {
    open spec fn spec_wf(v: SensorDataResponseView) -> bool {
        true
    }

    open spec fn spec_min_wire_len() -> nat {
        3
    }

    open spec fn spec_serialize(v: SensorDataResponseView) -> Result<Seq<u8>, ProtocolError> {
        if v.sensors.len() != v.sensor_count as nat {
            Err(ProtocolError::InvalidData)
        } else {
            Ok(
                seq![v.sensor_count] + spec_u16_to_le_bytes((29 * v.sensors.len()) as u16)
                    + spec_sensor_run_bytes(v.sensors),
            )
        }
    }

    open spec fn spec_deserialize(data: Seq<u8>) -> Result<SensorDataResponseView, ProtocolError> {
        if data.len() < 3 {
            Err(ProtocolError::IoError)
        } else {
            let count = data[0];
            let n = spec_u16_from_le_bytes(data.subrange(1, 3)) as int;
            if data.len() < 3 + n {
                Err(ProtocolError::IoError)
            } else if n != 29 * count {
                Err(ProtocolError::InvalidData)
            } else {
                Ok(
                    SensorDataResponseView {
                        sensor_count: count,
                        sensors: Seq::new(
                            count as nat,
                            |i: int| spec_sensor_data_from(
                                data.subrange(3 + 29 * i, 3 + 29 * i + 29),
                            ),
                        ),
                    },
                )
            }
        }
    }

    fn serialize(&self) -> (r: Result<Vec<u8>, ProtocolError>) {
        if self.sensors.len() != self.sensor_count as usize {
            return Err(ProtocolError::InvalidData);
        }
        let total: usize = 29 * self.sensors.len();
        let mut out: Vec<u8> = Vec::new();
        write_u8(&mut out, self.sensor_count);
        write_u16_le(&mut out, total as u16);
        let header_len: usize = out.len();
        let ghost prefix = out@;
        let mut i: usize = 0;
        while i < self.sensors.len()
            invariant
                self.sensors.len() <= 255,
                i <= self.sensors.len(),
                out@ == prefix + spec_sensor_run_bytes(self.sensors@.take(i as int)),
            decreases self.sensors.len() - i,
        {
            let record = match (&self.sensors[i]).serialize() {
                Ok(b) => b,
                Err(e) => return Err(e),
            };
            let mut record_bytes = record;
            out.append(&mut record_bytes);
            proof {
                let taken = self.sensors@.take(i + 1);
                assert(taken.drop_last() =~= self.sensors@.take(i as int));
                assert(taken.last() == self.sensors@[i as int]);
                assert(out@ == prefix + spec_sensor_run_bytes(taken));
            }
            i = i + 1;
        }
        proof {
            assert(self.sensors@.take(self.sensors@.len() as int) =~= self.sensors@);
        }
        Ok(out)
    }

    fn deserialize(data: &[u8]) -> (r: Result<SensorDataResponse, ProtocolError>) {
        let sensor_count = match read_u8_at(data, 0) {
            Ok(v) => v,
            Err(e) => return Err(e),
        };
        let n = match read_u16_le_at(data, 1) {
            Ok(v) => v,
            Err(e) => return Err(e),
        };
        let n_bytes = n as usize;
        if data.len() - 3 < n_bytes {
            return Err(ProtocolError::IoError);
        }
        if n_bytes != 29 * (sensor_count as usize) {
            return Err(ProtocolError::InvalidData);
        }
        let mut sensors: Vec<SensorData> = Vec::new();
        let count = sensor_count as usize;
        let mut i: usize = 0;
        while i < count
            invariant
                count <= 255,
                i <= count,
                data@.len() >= 3 + 29 * count,
                sensors@ =~= Seq::new(
                    i as nat,
                    |j: int| spec_sensor_data_from(data@.subrange(3 + 29 * j, 3 + 29 * j + 29)),
                ),
            decreases count - i,
        {
            let off: usize = 3 + 29 * i;
            let record_slice = slice_subrange(data, off, off + 29);
            let record = match SensorData::deserialize(record_slice) {
                Ok(v) => v,
                Err(e) => return Err(e),
            };
            sensors.push(record);
            proof {
                assert(sensors@ =~= Seq::new(
                    (i + 1) as nat,
                    |j: int| spec_sensor_data_from(data@.subrange(3 + 29 * j, 3 + 29 * j + 29)),
                ));
            }
            i = i + 1;
        }
        let result = SensorDataResponse { sensor_count, sensors };
        proof {
            assert(Self::spec_deserialize(data@) matches Ok(w) && w =~= result@);
        }
        Ok(result)
    }

    proof fn lemma_serialize_deserialize(v: SensorDataResponseView) {
        lemma_auto_spec_u16_to_from_le_bytes();
        if v.sensors.len() == v.sensor_count as nat {
            let total = (29 * v.sensors.len()) as u16;
            lemma_sensor_run_bytes_len(v.sensors);
            let bytes = seq![v.sensor_count] + spec_u16_to_le_bytes(total)
                + spec_sensor_run_bytes(v.sensors);
            assert(bytes.subrange(1, 3) =~= spec_u16_to_le_bytes(total));
            assert forall|i: int| 0 <= i < v.sensors.len() implies spec_sensor_data_from(
                bytes.subrange(3 + 29 * i, 3 + 29 * i + 29),
            ) == v.sensors[i] by {
                lemma_sensor_run_bytes_at(v.sensors, i);
                assert(bytes.subrange(3 + 29 * i, 3 + 29 * i + 29) =~= spec_sensor_run_bytes(
                    v.sensors,
                ).subrange(29 * i, 29 * i + 29));
                lemma_sensor_data_roundtrip(v.sensors[i]);
            }
            assert(Self::spec_deserialize(bytes) matches Ok(w) && w =~= v);
        }
    }

    proof fn lemma_short_input(data: Seq<u8>) {
    }
}

} // verus!
