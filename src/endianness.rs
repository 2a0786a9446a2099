use vstd::prelude::*;
use crate::error::DecodeError;

verus! {

/// The value of the two bytes at `i` and `i + 1`, most significant first.
pub open spec fn be_u16(b: Seq<u8>, i: int) -> int {
    b[i] as int * 0x100 + b[i + 1] as int
}

/// The value of the four bytes from `i` on, most significant first.
pub open spec fn be_u32(b: Seq<u8>, i: int) -> int {
    b[i] as int * 0x100_0000 + b[i + 1] as int * 0x1_0000 + b[i + 2] as int * 0x100
        + b[i + 3] as int
}

/// Whether `width` bytes can be read from `b` at `offset`.
pub open spec fn fits(b: Seq<u8>, offset: int, width: int) -> bool {
    0 <= offset && offset + width <= b.len()
}

/// Reading one byte: the byte, or the offset that is out of bounds.
pub open spec fn spec_read_u8(b: Seq<u8>, offset: usize) -> Result<u8, DecodeError> {
    if fits(b, offset as int, 1) {
        Ok(b[offset as int])
    } else {
        Err(DecodeError::OffsetOutOfBounds { offset })
    }
}

/// Reading a big-endian 16-bit value.
pub open spec fn spec_read_u16(b: Seq<u8>, offset: usize) -> Result<u16, DecodeError> {
    if fits(b, offset as int, 2) {
        Ok(be_u16(b, offset as int) as u16)
    } else {
        Err(DecodeError::OffsetOutOfBounds { offset })
    }
}

/// Reading a big-endian 32-bit value.
pub open spec fn spec_read_u32(b: Seq<u8>, offset: usize) -> Result<u32, DecodeError> {
    if fits(b, offset as int, 4) {
        Ok(be_u32(b, offset as int) as u32)
    } else {
        Err(DecodeError::OffsetOutOfBounds { offset })
    }
}

/// Fixed-width unsigned reads at an explicit offset.
pub trait ByteOrder {
    fn read_u8(bytecode: &Vec<u8>, offset: usize) -> (r: Result<u8, DecodeError>)
        ensures
            r == spec_read_u8(bytecode@, offset),
            r is Ok ==> offset + 1 <= bytecode.len(),
    ;

    fn read_u16(bytecode: &Vec<u8>, offset: usize) -> (r: Result<u16, DecodeError>)
        ensures
            r == spec_read_u16(bytecode@, offset),
            r is Ok ==> offset + 2 <= bytecode.len(),
    ;

    fn read_u32(bytecode: &Vec<u8>, offset: usize) -> (r: Result<u32, DecodeError>)
        ensures
            r == spec_read_u32(bytecode@, offset),
            r is Ok ==> offset + 4 <= bytecode.len(),
    ;
}

/// The byte order of the container format: most significant byte first.
pub struct BigEndianByteOrder;

impl ByteOrder for BigEndianByteOrder {
    fn read_u8(bytecode: &Vec<u8>, offset: usize) -> (r: Result<u8, DecodeError>) {
        if offset >= bytecode.len() {
            return Err(DecodeError::OffsetOutOfBounds { offset });
        }
        Ok(bytecode[offset])
    }

    fn read_u16(bytecode: &Vec<u8>, offset: usize) -> (r: Result<u16, DecodeError>) {
        if offset > bytecode.len() || bytecode.len() - offset < 2 {
            return Err(DecodeError::OffsetOutOfBounds { offset });
        }
        let hi = bytecode[offset] as u16;
        let lo = bytecode[offset + 1] as u16;
        Ok(hi * 0x100 + lo)
    }

    fn read_u32(bytecode: &Vec<u8>, offset: usize) -> (r: Result<u32, DecodeError>) {
        if offset > bytecode.len() || bytecode.len() - offset < 4 {
            return Err(DecodeError::OffsetOutOfBounds { offset });
        }
        let b0 = bytecode[offset] as u32;
        let b1 = bytecode[offset + 1] as u32;
        let b2 = bytecode[offset + 2] as u32;
        let b3 = bytecode[offset + 3] as u32;
        Ok(b0 * 0x100_0000 + b1 * 0x1_0000 + b2 * 0x100 + b3)
    }
}

/// Two bytes in big-endian order read back as their value, and a buffer
/// too short for them is refused with the offset that was asked for.
pub proof fn lemma_read_u16(b: Seq<u8>, offset: usize)
    ensures
        offset as int + 2 <= b.len() ==> spec_read_u16(b, offset) == Ok::<u16, DecodeError>(
            (b[offset as int] as int * 256 + b[offset + 1] as int) as u16,
        ),
        offset as int + 2 <= b.len() ==> b[offset as int] as int * 256 + b[offset + 1] as int
            <= 0xffff,
        offset as int + 2 > b.len() ==> spec_read_u16(b, offset) == Err::<u16, DecodeError>(
            DecodeError::OffsetOutOfBounds { offset },
        ),
{
}

} // verus!
