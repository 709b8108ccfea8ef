//! Bounds-checked big-endian integer reads over a byte buffer.
//!
//! Every reader takes the buffer and a position and, on success, returns the
//! value together with the position just past the bytes it consumed.

use vstd::prelude::*;

verus! {

/// Errors surfaced while decoding binary input.
#[derive(Debug, Clone, Copy, PartialEq, Eq)]
pub enum DecodeError {
    /// Fewer bytes remained than a read of the given width required.
    Incomplete(usize),
    /// The bytes do not follow the expected format.
    Malformed,
    /// A text constant is not valid UTF-8.
    Encoding,
}

/// The big-endian 16-bit value stored at index `i`.
pub open spec fn be16(b: Seq<u8>, i: int) -> int {
    b[i] * 0x100 + b[i + 1]
}

/// The big-endian 32-bit value stored at index `i`.
pub open spec fn be32(b: Seq<u8>, i: int) -> int {
    b[i] * 0x1000000 + b[i + 1] * 0x10000 + b[i + 2] * 0x100 + b[i + 3]
}

/// The big-endian 64-bit value stored at index `i`.
pub open spec fn be64(b: Seq<u8>, i: int) -> int {
    b[i] * 0x100000000000000 + b[i + 1] * 0x1000000000000 + b[i + 2] * 0x10000000000 + b[i + 3]
        * 0x100000000 + b[i + 4] * 0x1000000 + b[i + 5] * 0x10000 + b[i + 6] * 0x100 + b[i + 7]
}

/// The signed value whose 8-bit two's-complement encoding is `v`.
pub open spec fn sign8(v: int) -> int {
    if v < 0x80 {
        v
    } else {
        v - 0x100
    }
}

/// The signed value whose 16-bit two's-complement encoding is `v`.
pub open spec fn sign16(v: int) -> int {
    if v < 0x8000 {
        v
    } else {
        v - 0x10000
    }
}

/// The signed value whose 32-bit two's-complement encoding is `v`.
pub open spec fn sign32(v: int) -> int {
    if v < 0x80000000 {
        v
    } else {
        v - 0x100000000
    }
}

/// The signed value whose 64-bit two's-complement encoding is `v`.
pub open spec fn sign64(v: int) -> int {
    if v < 0x8000000000000000 {
        v
    } else {
        v - 0x10000000000000000
    }
}

pub fn read_u8(data: &Vec<u8>, pos: usize) -> (r: Result<(u8, usize), DecodeError>)
    ensures
        pos + 1 <= data.len() ==> (r matches Ok(v) && v.0 == data@[pos as int] && v.1 == pos + 1),
        pos + 1 > data.len() ==> r == Err::<(u8, usize), DecodeError>(DecodeError::Incomplete(1)),
{
    if pos < data.len() {
        Ok((data[pos], pos + 1))
    } else {
        Err(DecodeError::Incomplete(1))
    }
}

pub fn read_u16(data: &Vec<u8>, pos: usize) -> (r: Result<(u16, usize), DecodeError>)
    ensures
        pos + 2 <= data.len() ==> (r matches Ok(v) && v.0 == be16(data@, pos as int) && v.1 == pos
            + 2),
        pos + 2 > data.len() ==> r == Err::<(u16, usize), DecodeError>(DecodeError::Incomplete(2)),
{
    if pos < data.len() && data.len() - pos >= 2 {
        let hi = data[pos];
        let lo = data[pos + 1];
        Ok(((hi as u16) * 0x100 + (lo as u16), pos + 2))
    } else {
        Err(DecodeError::Incomplete(2))
    }
}

pub fn read_u32(data: &Vec<u8>, pos: usize) -> (r: Result<(u32, usize), DecodeError>)
    ensures
        pos + 4 <= data.len() ==> (r matches Ok(v) && v.0 == be32(data@, pos as int) && v.1 == pos
            + 4),
        pos + 4 > data.len() ==> r == Err::<(u32, usize), DecodeError>(DecodeError::Incomplete(4)),
{
    if pos < data.len() && data.len() - pos >= 4 {
        let b0 = data[pos] as u32;
        let b1 = data[pos + 1] as u32;
        let b2 = data[pos + 2] as u32;
        let b3 = data[pos + 3] as u32;
        Ok((b0 * 0x1000000 + b1 * 0x10000 + b2 * 0x100 + b3, pos + 4))
    } else {
        Err(DecodeError::Incomplete(4))
    }
}

pub fn read_u64(data: &Vec<u8>, pos: usize) -> (r: Result<(u64, usize), DecodeError>)
    ensures
        pos + 8 <= data.len() ==> (r matches Ok(v) && v.0 == be64(data@, pos as int) && v.1 == pos
            + 8),
        pos + 8 > data.len() ==> r == Err::<(u64, usize), DecodeError>(DecodeError::Incomplete(8)),
{
    if pos < data.len() && data.len() - pos >= 8 {
        let b0 = data[pos] as u64;
        let b1 = data[pos + 1] as u64;
        let b2 = data[pos + 2] as u64;
        let b3 = data[pos + 3] as u64;
        let b4 = data[pos + 4] as u64;
        let b5 = data[pos + 5] as u64;
        let b6 = data[pos + 6] as u64;
        let b7 = data[pos + 7] as u64;
        Ok(
            (
                b0 * 0x100000000000000 + b1 * 0x1000000000000 + b2 * 0x10000000000 + b3
                    * 0x100000000 + b4 * 0x1000000 + b5 * 0x10000 + b6 * 0x100 + b7,
                pos + 8,
            ),
        )
    } else {
        Err(DecodeError::Incomplete(8))
    }
}

pub fn read_i16(data: &Vec<u8>, pos: usize) -> (r: Result<(i16, usize), DecodeError>)
    ensures
        pos + 2 <= data.len() ==> (r matches Ok(v) && v.0 == sign16(be16(data@, pos as int)) && v.1
            == pos + 2),
        pos + 2 > data.len() ==> r == Err::<(i16, usize), DecodeError>(DecodeError::Incomplete(2)),
{
    match read_u16(data, pos) {
        Ok((v, next)) => {
            if v < 0x8000 {
                Ok((v as i16, next))
            } else {
                Ok(((v as i32 - 0x10000) as i16, next))
            }
        },
        Err(e) => Err(e),
    }
}

pub fn read_i32(data: &Vec<u8>, pos: usize) -> (r: Result<(i32, usize), DecodeError>)
    ensures
        pos + 4 <= data.len() ==> (r matches Ok(v) && v.0 == sign32(be32(data@, pos as int)) && v.1
            == pos + 4),
        pos + 4 > data.len() ==> r == Err::<(i32, usize), DecodeError>(DecodeError::Incomplete(4)),
{
    match read_u32(data, pos) {
        Ok((v, next)) => {
            if v < 0x80000000 {
                Ok((v as i32, next))
            } else {
                Ok(((v as i64 - 0x100000000) as i32, next))
            }
        },
        Err(e) => Err(e),
    }
}

pub fn read_i64(data: &Vec<u8>, pos: usize) -> (r: Result<(i64, usize), DecodeError>)
    ensures
        pos + 8 <= data.len() ==> (r matches Ok(v) && v.0 == sign64(be64(data@, pos as int)) && v.1
            == pos + 8),
        pos + 8 > data.len() ==> r == Err::<(i64, usize), DecodeError>(DecodeError::Incomplete(8)),
{
    match read_u64(data, pos) {
        Ok((v, next)) => {
            if v < 0x8000000000000000 {
                Ok((v as i64, next))
            } else {
                Ok(((v - 0x8000000000000000) as i64 + i64::MIN, next))
            }
        },
        Err(e) => Err(e),
    }
}

/// Whether two byte buffers hold the same bytes.
pub fn bytes_eq(a: &Vec<u8>, b: &Vec<u8>) -> (r: bool)
    ensures
        r == (a@ == b@),
{
    if a.len() != b.len() {
        assert(a@ != b@) by {
            assert(a@.len() != b@.len());
        }
        return false;
    }
    let mut i: usize = 0;
    while i < a.len()
        invariant
            a.len() == b.len(),
            i <= a.len(),
            forall|k: int| 0 <= k < i ==> a@[k] == b@[k],
        decreases a.len() - i,
    {
        if a[i] != b[i] {
            return false;
        }
        i = i + 1;
    }
    proof {
        assert(a@ =~= b@);
    }
    true
}

/// An owned copy of a byte buffer.
pub fn copy_bytes(src: &Vec<u8>) -> (r: Vec<u8>)
    ensures
        r@ == src@,
{
    let mut out: Vec<u8> = Vec::new();
    let mut i: usize = 0;
    while i < src.len()
        invariant
            i <= src.len(),
            out@ == src@.subrange(0, i as int),
        decreases src.len() - i,
    {
        out.push(src[i]);
        assert(out@ == src@.subrange(0, i + 1));
        i = i + 1;
    }
    proof {
        assert(src@.subrange(0, src.len() as int) =~= src@);
    }
    out
}

/// Copies `count` bytes starting at `pos` into an owned buffer.
pub fn read_bytes(data: &Vec<u8>, pos: usize, count: usize) -> (r: Result<
    (Vec<u8>, usize),
    DecodeError,
>)
    ensures
        pos + count <= data.len() ==> (r matches Ok(v) && v.0@ == data@.subrange(
            pos as int,
            pos + count,
        ) && v.1 == pos + count),
        pos + count > data.len() ==> r == Err::<(Vec<u8>, usize), DecodeError>(
            DecodeError::Incomplete(count),
        ),
{
    if pos <= data.len() && data.len() - pos >= count {
        let mut out: Vec<u8> = Vec::new();
        let mut i: usize = 0;
        while i < count
            invariant
                pos + count <= data.len(),
                i <= count,
                out@ == data@.subrange(pos as int, pos + i),
            decreases count - i,
        {
            out.push(data[pos + i]);
            assert(out@ == data@.subrange(pos as int, pos + i + 1));
            i = i + 1;
        }
        Ok((out, pos + count))
    } else {
        Err(DecodeError::Incomplete(count))
    }
}

} // verus!
