use vstd::prelude::*;

use crate::errors::HostError;

verus! {

/// Copies the byte range `[offset, offset + length)` out of a memory
/// snapshot into an owned buffer. Succeeds exactly when the range lies
/// within the snapshot — an end exactly at the snapshot's size is still in
/// bounds — and performs no interpretation, only the bounds-checked copy.
pub fn read_range(data: &Vec<u8>, offset: usize, length: usize) -> (r: Result<Vec<u8>, HostError>)
    ensures
        match r {
            Ok(bytes) => offset + length <= data@.len() && bytes@ == data@.subrange(
                offset as int,
                offset + length,
            ),
            Err(e) => offset + length > data@.len() && (e matches HostError::OutOfBounds),
        },
{
    let n = data.len();
    if offset > n || length > n - offset {
        return Err(HostError::OutOfBounds);
    }
    let mut out: Vec<u8> = Vec::new();
    let mut i: usize = 0;
    while i < length
        invariant
            i <= length,
            n == data@.len(),
            offset + length <= n,
            out@ == data@.subrange(offset as int, offset + i),
        decreases length - i,
    {
        out.push(data[offset + i]);
        i = i + 1;
        proof {
            assert(out@ =~= data@.subrange(offset as int, offset + i));
        }
    }
    Ok(out)
}

} // verus!
