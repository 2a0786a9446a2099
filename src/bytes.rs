use vstd::prelude::*;
use vstd::utf8::{valid_utf8, decode_utf8};
use crate::error::DecodeError;
use crate::endianness::fits;

verus! {

/// The `n` bytes of `b` from `offset` on, or the offset if they run past the end.
pub open spec fn spec_read_bytes(b: Seq<u8>, offset: usize, n: usize) -> Result<Seq<u8>, DecodeError> {
    if fits(b, offset as int, n as int) {
        Ok(b.subrange(offset as int, offset + n))
    } else {
        Err(DecodeError::OffsetOutOfBounds { offset })
    }
}

/// Copies `n` bytes of `b` starting at `offset`.
pub fn read_bytes(b: &Vec<u8>, offset: usize, n: usize) -> (r: Result<Vec<u8>, DecodeError>)
    ensures
        match r {
            Ok(v) => spec_read_bytes(b@, offset, n) == Ok::<Seq<u8>, DecodeError>(v@),
            Err(e) => spec_read_bytes(b@, offset, n) == Err::<Seq<u8>, DecodeError>(e),
        },
        r is Ok ==> offset + n <= b.len(),
{
    if offset > b.len() || b.len() - offset < n {
        return Err(DecodeError::OffsetOutOfBounds { offset });
    }
    let mut v: Vec<u8> = Vec::with_capacity(n);
    let mut i: usize = 0;
    while i < n
        invariant
            i <= n,
            offset + n <= b.len(),
            v@ == b@.subrange(offset as int, offset + i),
        decreases n - i,
    {
        v.push(b[offset + i]);
        i = i + 1;
        assert(v@ =~= b@.subrange(offset as int, offset + i));
    }
    Ok(v)
}

/// Relies on `String::from_utf8`: it accepts exactly the well-formed UTF-8
/// sequences and yields the characters they encode.
#[verifier::external_body]
pub(crate) fn string_from_utf8(b: Vec<u8>) -> (r: Option<String>)
    ensures
        r is Some <==> valid_utf8(b@),
        r matches Some(s) ==> s@ == decode_utf8(b@),
{
    String::from_utf8(b).ok()
}

} // verus!
