//! Decompression of the LZ4 block that follows the header.

use vstd::prelude::*;
use crate::error::FormatError;

verus! {

#[verifier::external_type_specification]
#[verifier::external_body]
pub struct ExIoError(std::io::Error);

/// The bytes that `lz4::block::decompress_to_buffer` writes for the block
/// `src` when it is given `capacity` as the size and a destination of that
/// many bytes, or `None` where it reports an error.
pub uninterp spec fn lz4_block(src: Seq<u8>, capacity: int) -> Option<Seq<u8>>;

/// Calls `lz4::block::decompress_to_buffer` on a destination of `capacity`
/// bytes. Trusted: whether it reports an error and, where it does not, the
/// bytes that it has written depend on the block and the capacity alone; the
/// count that it reports is the number of those bytes, no more than the
/// capacity; they stand at the front of the destination, which keeps its
/// length.
#[verifier::external_body]
fn decompress_to_buffer(src: &[u8], capacity: i32, dst: &mut Vec<u8>) -> (report: Result<
    usize,
    std::io::Error,
>)
    requires
        src@.len() <= i32::MAX,
        capacity == old(dst)@.len(),
    ensures
        final(dst)@.len() == old(dst)@.len(),
        match report {
            Ok(written) => written <= capacity && lz4_block(src@, capacity as int) == Some(
                final(dst)@.take(written as int),
            ),
            Err(_) => lz4_block(src@, capacity as int) is None,
        },
{
    lz4::block::decompress_to_buffer(src, Some(capacity), dst.as_mut_slice())
}

/// Whether the decompressor can be handed a block of `compressed_len` bytes
/// and a destination of `expected_size` bytes: it takes both as an `i32`.
pub open spec fn within_block_limits(compressed_len: nat, expected_size: usize) -> bool {
    compressed_len <= i32::MAX && expected_size <= i32::MAX
}

/// What the decompressor writes for `compressed` into a destination of
/// `expected_size` bytes, `None` where it reports an error. Where the
/// sizes are beyond what it takes, the call is not made and nothing is
/// written.
pub open spec fn block_outcome(compressed: Seq<u8>, expected_size: usize) -> Option<Seq<u8>> {
    if within_block_limits(compressed.len(), expected_size) {
        lz4_block(compressed, expected_size as int)
    } else {
        None
    }
}

/// What becomes of a destination `buffer` for which the decompressor
/// reported `written`: it is the payload only where the count is the
/// expected size exactly, and is not zero.
pub open spec fn accepted(written: Option<usize>, buffer: Seq<u8>, expected_size: usize) -> Result<
    Seq<u8>,
    FormatError,
> {
    if written == Some(expected_size) && expected_size > 0 {
        Ok(buffer)
    } else {
        Err(FormatError::DecompressionFailed { expected: expected_size, written })
    }
}

/// What `decompress` yields: the bytes that the decompressor writes, where
/// they are as many as expected and at least one.
pub open spec fn decompressed(compressed: Seq<u8>, expected_size: usize) -> Result<
    Seq<u8>,
    FormatError,
> {
    match block_outcome(compressed, expected_size) {
        Some(bytes) => accepted(Some(bytes.len() as usize), bytes, expected_size),
        None => accepted(None, Seq::empty(), expected_size),
    }
}

/// Checks a decompressor's report against the size that the header calls
/// for, and hands the destination on only where they agree.
pub fn accept_block(written: Option<usize>, buffer: Vec<u8>, expected_size: usize) -> (r: Result<
    Vec<u8>,
    FormatError,
>)
    ensures
        match r {
            Ok(payload) => accepted(written, buffer@, expected_size) == Ok::<Seq<u8>, FormatError>(
                payload@,
            ),
            Err(e) => accepted(written, buffer@, expected_size) == Err::<Seq<u8>, FormatError>(e),
        },
{
    let failed = FormatError::DecompressionFailed { expected: expected_size, written };
    match written {
        Some(n) => {
            if n == expected_size && n > 0 {
                Ok(buffer)
            } else {
                Err(failed)
            }
        },
        None => Err(failed),
    }
}

/// Decompresses `compressed` into a fresh zeroed buffer of `expected_size`
/// bytes and returns the buffer if exactly that many bytes were written.
pub fn decompress(compressed: &[u8], expected_size: usize) -> (r: Result<Vec<u8>, FormatError>)
    ensures
        match r {
            Ok(payload) => decompressed(compressed@, expected_size) == Ok::<Seq<u8>, FormatError>(
                payload@,
            ),
            Err(e) => decompressed(compressed@, expected_size) == Err::<Seq<u8>, FormatError>(e),
        },
        r matches Ok(payload) ==> payload@.len() == expected_size,
{
    if compressed.len() > i32::MAX as usize || expected_size > i32::MAX as usize {
        return Err(FormatError::DecompressionFailed { expected: expected_size, written: None });
    }
    let mut buffer: Vec<u8> = vec![0u8; expected_size];
    let written: Option<usize> = match decompress_to_buffer(
        compressed,
        expected_size as i32,
        &mut buffer,
    ) {
        Ok(n) => Some(n),
        Err(_) => None,
    };
    proof {
        if written == Some(expected_size) {
            assert(buffer@.take(expected_size as int) =~= buffer@);
        }
    }
    accept_block(written, buffer, expected_size)
}

} // verus!
