use vstd::bytes::*;
use vstd::prelude::*;
use vstd::slice::*;

use crate::error::ProtocolError;

verus! {

broadcast use vstd::array::group_array_axioms;
// Every multi-byte scalar of the protocol crosses the wire little-endian.
// The sequence specs for u16, u32 and u64 come from vstd::bytes; this module
// adds the signed and boolean conventions and the cursor-style readers and
// writers the message codecs are built from.

/// The byte a boolean encodes to: `0x01` for true, `0x00` for false.
/// Decoding is deliberately wider: any nonzero byte reads back as true.
pub open spec fn spec_bool_to_byte(b: bool) -> u8 {
    if b {
        1
    } else {
        0
    }
}

/// The unsigned bit pattern that carries an `i16` on the wire
/// (two's complement).
pub open spec fn spec_i16_to_u16(x: i16) -> u16 {
    if x >= 0 {
        x as u16
    } else {
        (x + 0x10000) as u16
    }
}

/// The `i16` a wire bit pattern stands for (two's complement).
pub open spec fn spec_u16_to_i16(y: u16) -> i16 {
    if y < 0x8000 {
        y as i16
    } else {
        (y - 0x10000) as i16
    }
}

/// The two little-endian bytes of an `i16`.
pub open spec fn spec_i16_to_le_bytes(x: i16) -> Seq<u8> {
    spec_u16_to_le_bytes(spec_i16_to_u16(x))
}

/// The `i16` two little-endian bytes carry.
pub open spec fn spec_i16_from_le_bytes(s: Seq<u8>) -> i16 {
    spec_u16_to_i16(spec_u16_from_le_bytes(s))
}

/// Reading back the two wire bytes of an `i16` yields the value written.
pub proof fn lemma_i16_le_bytes_roundtrip(x: i16)
    ensures
        spec_i16_to_le_bytes(x).len() == 2,
        spec_i16_from_le_bytes(spec_i16_to_le_bytes(x)) == x,
{
    lemma_auto_spec_u16_to_from_le_bytes();
    let y = spec_i16_to_u16(x);
    assert(spec_u16_to_le_bytes(y).len() == 2);
    assert(spec_u16_from_le_bytes(spec_u16_to_le_bytes(y)) == y);
    if x >= 0 {
        assert(y < 0x8000);
        assert(spec_u16_to_i16(y) == x);
    } else {
        assert(y >= 0x8000);
        assert(spec_u16_to_i16(y) == x);
    }
}

pub fn i16_to_u16_wire(x: i16) -> (y: u16)
    ensures
        y == spec_i16_to_u16(x),
{
    if x >= 0 {
        x as u16
    } else {
        ((x as i32) + 0x10000) as u16
    }
}

pub fn u16_to_i16_wire(y: u16) -> (x: i16)
    ensures
        x == spec_u16_to_i16(y),
{
    if y < 0x8000 {
        y as i16
    } else {
        ((y as i32) - 0x10000) as i16
    }
}

pub fn write_u8(out: &mut Vec<u8>, x: u8)
    ensures
        final(out)@ == old(out)@ + seq![x],
{
    out.push(x);
    proof {
        assert(out@ =~= old(out)@ + seq![x]);
    }
}

pub fn write_bool(out: &mut Vec<u8>, b: bool)
    ensures
        final(out)@ == old(out)@ + seq![spec_bool_to_byte(b)],
{
    write_u8(out, if b { 1 } else { 0 });
}

pub fn write_u16_le(out: &mut Vec<u8>, x: u16)
    ensures
        final(out)@ == old(out)@ + spec_u16_to_le_bytes(x),
{
    let mut b = u16_to_le_bytes(x);
    out.append(&mut b);
}

pub fn write_u32_le(out: &mut Vec<u8>, x: u32)
    ensures
        final(out)@ == old(out)@ + spec_u32_to_le_bytes(x),
{
    let mut b = u32_to_le_bytes(x);
    out.append(&mut b);
}

pub fn write_u64_le(out: &mut Vec<u8>, x: u64)
    ensures
        final(out)@ == old(out)@ + spec_u64_to_le_bytes(x),
{
    let mut b = u64_to_le_bytes(x);
    out.append(&mut b);
}

pub fn write_i16_le(out: &mut Vec<u8>, x: i16)
    ensures
        final(out)@ == old(out)@ + spec_i16_to_le_bytes(x),
{
    write_u16_le(out, i16_to_u16_wire(x));
}

pub fn write_bytes(out: &mut Vec<u8>, data: &[u8])
    ensures
        final(out)@ == old(out)@ + data@,
{
    out.extend_from_slice(data);
}

/// Reads the byte at `pos`, or fails with a short-read error.
pub fn read_u8_at(data: &[u8], pos: usize) -> (r: Result<u8, ProtocolError>)
    ensures
        pos + 1 <= data@.len() ==> r == Ok::<u8, ProtocolError>(data@[pos as int]),
        pos + 1 > data@.len() ==> r == Err::<u8, ProtocolError>(ProtocolError::IoError),
{
    if pos < data.len() {
        Ok(*slice_index_get(data, pos))
    } else {
        Err(ProtocolError::IoError)
    }
}

/// Reads the boolean encoded at `pos`: any nonzero byte is true.
pub fn read_bool_at(data: &[u8], pos: usize) -> (r: Result<bool, ProtocolError>)
    ensures
        pos + 1 <= data@.len() ==> r == Ok::<bool, ProtocolError>(data@[pos as int] != 0),
        pos + 1 > data@.len() ==> r == Err::<bool, ProtocolError>(ProtocolError::IoError),
{
    match read_u8_at(data, pos) {
        Ok(b) => Ok(b != 0),
        Err(e) => Err(e),
    }
}

/// Reads the little-endian `u16` at `pos`, or fails with a short-read error.
pub fn read_u16_le_at(data: &[u8], pos: usize) -> (r: Result<u16, ProtocolError>)
    ensures
        pos + 2 <= data@.len() ==> r == Ok::<u16, ProtocolError>(
            spec_u16_from_le_bytes(data@.subrange(pos as int, pos as int + 2)),
        ),
        pos + 2 > data@.len() ==> r == Err::<u16, ProtocolError>(ProtocolError::IoError),
{
    if data.len() >= 2 && pos <= data.len() - 2 {
        let s = slice_subrange(data, pos, pos + 2);
        Ok(u16_from_le_bytes(s))
    } else {
        Err(ProtocolError::IoError)
    }
}

/// Reads the little-endian `u32` at `pos`, or fails with a short-read error.
pub fn read_u32_le_at(data: &[u8], pos: usize) -> (r: Result<u32, ProtocolError>)
    ensures
        pos + 4 <= data@.len() ==> r == Ok::<u32, ProtocolError>(
            spec_u32_from_le_bytes(data@.subrange(pos as int, pos as int + 4)),
        ),
        pos + 4 > data@.len() ==> r == Err::<u32, ProtocolError>(ProtocolError::IoError),
{
    if data.len() >= 4 && pos <= data.len() - 4 {
        let s = slice_subrange(data, pos, pos + 4);
        Ok(u32_from_le_bytes(s))
    } else {
        Err(ProtocolError::IoError)
    }
}

/// Reads the little-endian `u64` at `pos`, or fails with a short-read error.
pub fn read_u64_le_at(data: &[u8], pos: usize) -> (r: Result<u64, ProtocolError>)
    ensures
        pos + 8 <= data@.len() ==> r == Ok::<u64, ProtocolError>(
            spec_u64_from_le_bytes(data@.subrange(pos as int, pos as int + 8)),
        ),
        pos + 8 > data@.len() ==> r == Err::<u64, ProtocolError>(ProtocolError::IoError),
{
    if data.len() >= 8 && pos <= data.len() - 8 {
        let s = slice_subrange(data, pos, pos + 8);
        Ok(u64_from_le_bytes(s))
    } else {
        Err(ProtocolError::IoError)
    }
}

/// Reads the little-endian `i16` at `pos`, or fails with a short-read error.
pub fn read_i16_le_at(data: &[u8], pos: usize) -> (r: Result<i16, ProtocolError>)
    ensures
        pos + 2 <= data@.len() ==> r == Ok::<i16, ProtocolError>(
            spec_i16_from_le_bytes(data@.subrange(pos as int, pos as int + 2)),
        ),
        pos + 2 > data@.len() ==> r == Err::<i16, ProtocolError>(ProtocolError::IoError),
{
    match read_u16_le_at(data, pos) {
        Ok(y) => Ok(u16_to_i16_wire(y)),
        Err(e) => Err(e),
    }
}

/// Reads `n` raw bytes starting at `pos`, or fails with a short-read error.
pub fn read_bytes_at(data: &[u8], pos: usize, n: usize) -> (r: Result<Vec<u8>, ProtocolError>)
    ensures
        pos + n <= data@.len() ==> (r matches Ok(v) && v@ == data@.subrange(
            pos as int,
            pos as int + n as int,
        )),
        pos + n > data@.len() ==> r == Err::<Vec<u8>, ProtocolError>(ProtocolError::IoError),
{
    if n <= data.len() && pos <= data.len() - n {
        let s = slice_subrange(data, pos, pos + n);
        Ok(slice_to_vec(s))
    } else {
        Err(ProtocolError::IoError)
    }
}

/// Reads exactly `N` raw bytes starting at `pos` into a fixed-size array, or
/// fails with a short-read error.
pub fn read_fixed_bytes<const N: usize>(data: &[u8], pos: usize) -> (r: Result<
    [u8; N],
    ProtocolError,
>)
    ensures
        pos + N <= data@.len() ==> (r matches Ok(b) && b@ == data@.subrange(
            pos as int,
            pos as int + N as int,
        )),
        pos + N > data@.len() ==> r == Err::<[u8; N], ProtocolError>(ProtocolError::IoError),
{
    if N <= data.len() && pos <= data.len() - N {
        let mut buf = [0u8; N];
        let mut i: usize = 0;
        while i < N
            invariant
                data@.len() <= usize::MAX,
                pos + N <= data@.len(),
                i <= N,
                buf@.len() == N,
                forall|j: int| 0 <= j < i ==> buf@[j] == data@[pos + j],
            decreases N - i,
        {
            let b = *slice_index_get(data, pos + i);
            buf[i] = b;
            i = i + 1;
        }
        proof {
            assert(buf@ =~= data@.subrange(pos as int, pos as int + N as int));
        }
        Ok(buf)
    } else {
        Err(ProtocolError::IoError)
    }
}

/// Reads `size` bytes (capped at 32) starting at `pos` into a 32-byte array,
/// zero-padding the tail, or fails with a short-read error.
pub fn read_fixed_string(data: &[u8], pos: usize, size: usize) -> (r: Result<
    [u8; 32],
    ProtocolError,
>)
    ensures
        ({
            let k = if size < 32 {
                size as int
            } else {
                32
            };
            &&& pos + k <= data@.len() ==> (r matches Ok(b) && b@ == data@.subrange(
                pos as int,
                pos as int + k,
            ) + Seq::new((32 - k) as nat, |j: int| 0u8))
            &&& pos + k > data@.len() ==> r == Err::<[u8; 32], ProtocolError>(
                ProtocolError::IoError,
            )
        }),
{
    let k: usize = if size < 32 {
        size
    } else {
        32
    };
    if k <= data.len() && pos <= data.len() - k {
        let mut buf = [0u8; 32];
        let mut i: usize = 0;
        while i < k
            invariant
                data@.len() <= usize::MAX,
                k <= 32,
                pos + k <= data@.len(),
                i <= k,
                buf@.len() == 32,
                forall|j: int| 0 <= j < i ==> buf@[j] == data@[pos + j],
                forall|j: int| i <= j < 32 ==> buf@[j] == 0,
            decreases k - i,
        {
            let b = *slice_index_get(data, pos + i);
            buf[i] = b;
            i = i + 1;
        }
        proof {
            assert(buf@ =~= data@.subrange(pos as int, pos as int + k as int) + Seq::new(
                (32 - k) as nat,
                |j: int| 0u8,
            ));
        }
        Ok(buf)
    } else {
        Err(ProtocolError::IoError)
    }
}

} // verus!
