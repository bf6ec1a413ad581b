//! One-shot transforms: a complete input buffer in, a complete output out.
//!
//! The caller makes each codec call; these functions size the output buffer
//! and decide what a codec answer means.

use crate::buffer::{keep_prefix, output_window, prefix, window_len, zeroed};
use crate::status::{error_kind, error_kind_of, ErrorKind, BZ_OK, BZ_OUTBUFF_FULL};
use vstd::prelude::*;

verus! {

/// Room added to every compression estimate.
pub const COMPRESS_SLACK: u64 = 600;

/// No one-shot decompression grows its buffer beyond this many bytes.
pub const DECOMPRESS_CEILING: u64 = 1024 * 1024 * 1024;

/// Worst-case size of the compressed form of `n` bytes.
pub open spec fn compress_estimate(n: int) -> int {
    n + n / 100 + COMPRESS_SLACK
}

/// First guess at the decompressed size of `n` compressed bytes.
pub open spec fn decompress_estimate(n: int) -> int {
    4 * n
}

/// The buffer size that follows a full-buffer answer for a buffer of
/// `capacity` bytes; `None` where the buffer is empty, since doubling would
/// not enlarge it, or where doubling would pass the ceiling.
pub open spec fn grown(capacity: int) -> Option<int> {
    if capacity <= 0 || 2 * capacity > DECOMPRESS_CEILING {
        None
    } else {
        Some(2 * capacity)
    }
}

/// The outcome of one codec call in a one-shot decompression.
pub enum Attempt {
    /// The call succeeded; this is the decompressed output.
    Done(Vec<u8>),
    /// The buffer was too small: call the codec again from scratch with this
    /// larger buffer.
    Retry(Vec<u8>),
    /// Give up with this error.
    Failed(ErrorKind),
}

/// The output buffer for compressing `input_len` bytes in one call. Inputs
/// whose length the codec cannot describe in 32 bits are refused.
pub fn compress_buffer(input_len: usize) -> (r: Result<Vec<u8>, ErrorKind>)
    ensures
        input_len > u32::MAX ==> r == Err::<Vec<u8>, ErrorKind>(ErrorKind::ParamError),
        input_len <= u32::MAX ==> (r matches Ok(b) && b@ == zeroed(
            window_len(compress_estimate(input_len as int)),
        )),
{
    if input_len > u32::MAX as usize {
        return Err(ErrorKind::ParamError);
    }
    let n: u64 = input_len as u64;
    Ok(output_window(n + n / 100 + COMPRESS_SLACK))
}

/// The result of a one-shot compression, from the codec's status and the
/// number of bytes it reports written into `buffer`. Compression is never
/// retried: the estimate bounds its output.
pub fn compress_output(status: i32, dest_len: u32, buffer: Vec<u8>) -> (r: Result<
    Vec<u8>,
    ErrorKind,
>)
    ensures
        status == BZ_OK ==> (r matches Ok(v) && v@ == prefix(buffer@, dest_len as int)),
        status != BZ_OK ==> r == Err::<Vec<u8>, ErrorKind>(error_kind_of(status)),
{
    if status == BZ_OK {
        Ok(keep_prefix(buffer, dest_len))
    } else {
        Err(error_kind(status))
    }
}

/// The first output buffer for decompressing `input_len` bytes in one call.
/// Inputs whose length the codec cannot describe in 32 bits are refused.
pub fn decompress_buffer(input_len: usize) -> (r: Result<Vec<u8>, ErrorKind>)
    ensures
        input_len > u32::MAX ==> r == Err::<Vec<u8>, ErrorKind>(ErrorKind::ParamError),
        input_len <= u32::MAX ==> (r matches Ok(b) && b@ == zeroed(
            window_len(decompress_estimate(input_len as int)),
        )),
{
    if input_len > u32::MAX as usize {
        return Err(ErrorKind::ParamError);
    }
    Ok(output_window(4 * input_len as u64))
}

/// Decides what follows a codec call of a one-shot decompression into
/// `buffer`: the output, a retry with a doubled buffer, or an error.
pub fn decompress_attempt(status: i32, dest_len: u32, buffer: Vec<u8>) -> (r: Attempt)
    ensures
        status == BZ_OK ==> (r matches Attempt::Done(v) && v@ == prefix(
            buffer@,
            dest_len as int,
        )),
        status == BZ_OUTBUFF_FULL ==> match grown(buffer@.len() as int) {
            Some(c) => (r matches Attempt::Retry(v) && v@ == zeroed(c)),
            None => r == Attempt::Failed(ErrorKind::OutbuffFull),
        },
        status != BZ_OK && status != BZ_OUTBUFF_FULL ==> r == Attempt::Failed(
            error_kind_of(status),
        ),
{
    if status == BZ_OK {
        Attempt::Done(keep_prefix(buffer, dest_len))
    } else if status == BZ_OUTBUFF_FULL {
        if buffer.len() == 0 || buffer.len() as u64 > DECOMPRESS_CEILING / 2 {
            Attempt::Failed(ErrorKind::OutbuffFull)
        } else {
            let bigger = vec![0u8; 2 * buffer.len()];
            assert(bigger@ == zeroed(2 * buffer@.len() as int));
            Attempt::Retry(bigger)
        }
    } else {
        Attempt::Failed(error_kind(status))
    }
}

/// The buffer size after `k` full-buffer answers in a row, starting from
/// `capacity`; `None` once the ceiling has ended the growth.
pub open spec fn capacity_after(capacity: int, k: nat) -> Option<int>
    decreases k,
{
    if k == 0 {
        Some(capacity)
    } else {
        match capacity_after(capacity, (k - 1) as nat) {
            Some(c) => grown(c),
            None => None,
        }
    }
}

/// `2` to the power `k`.
pub open spec fn two_to(k: nat) -> int
    decreases k,
{
    if k == 0 {
        1
    } else {
        2 * two_to((k - 1) as nat)
    }
}

/// Growth from a non-empty buffer: after `k` full-buffer answers in a row
/// the buffer has `capacity * 2^k` bytes, as long as that stays within the
/// ceiling; the first answer that would pass it ends the growth. So the codec
/// is called at most `1 + log2(ceiling / capacity)` times.
pub proof fn lemma_growth_exact(capacity: int, k: nat)
    requires
        1 <= capacity,
    ensures
        capacity_after(capacity, k) == if k == 0 || capacity * two_to(k) <= DECOMPRESS_CEILING {
            Some(capacity * two_to(k))
        } else {
            None::<int>
        },
    decreases k,
{
    if k == 0 {
        assert(capacity * two_to(0) == capacity);
    } else {
        let p = two_to((k - 1) as nat);
        lemma_growth_exact(capacity, (k - 1) as nat);
        lemma_two_to_positive((k - 1) as nat);
        assert(capacity * two_to(k) == 2 * (capacity * p)) by (nonlinear_arith)
            requires
                two_to(k) == 2 * p,
        ;
        assert(capacity * p >= 1) by (nonlinear_arith)
            requires
                capacity >= 1,
                p >= 1,
        ;
    }
}

/// An empty buffer is never grown: the first full-buffer answer ends it.
pub proof fn lemma_empty_not_grown(capacity: int, k: nat)
    requires
        capacity <= 0,
        k >= 1,
    ensures
        capacity_after(capacity, k) is None,
    decreases k,
{
    if k > 1 {
        lemma_empty_not_grown(capacity, (k - 1) as nat);
    } else {
        assert(capacity_after(capacity, 0) == Some(capacity));
    }
}

/// Growth ceiling: however long the codec keeps answering that the buffer is
/// full, a one-shot decompression stops with `OutbuffFull` after at most
/// thirty-one answers (after the first one, for an empty buffer), and no
/// buffer it asks for on a retry is larger than the ceiling.
pub proof fn lemma_growth_ceiling(capacity: int, k: nat)
    ensures
        k >= 31 ==> capacity_after(capacity, k) is None,
        capacity <= 0 && k >= 1 ==> capacity_after(capacity, k) is None,
        k >= 1 ==> (capacity_after(capacity, k) matches Some(c) ==> c <= DECOMPRESS_CEILING),
{
    if capacity <= 0 {
        if k >= 1 {
            lemma_empty_not_grown(capacity, k);
        }
    } else {
        lemma_growth_exact(capacity, k);
        if k >= 31 {
            let t = two_to(k);
            lemma_two_to_grows(31, k);
            reveal_with_fuel(two_to, 32);
            assert(two_to(31) == 0x8000_0000);
            assert(capacity * t >= t) by (nonlinear_arith)
                requires
                    capacity >= 1,
                    t >= 0,
            ;
        }
    }
}

proof fn lemma_two_to_grows(j: nat, k: nat)
    requires
        j <= k,
    ensures
        two_to(j) <= two_to(k),
    decreases k,
{
    if j < k {
        lemma_two_to_grows(j, (k - 1) as nat);
        lemma_two_to_positive((k - 1) as nat);
    }
}

proof fn lemma_two_to_positive(k: nat)
    ensures
        two_to(k) >= 1,
    decreases k,
{
    if k > 0 {
        lemma_two_to_positive((k - 1) as nat);
    }
}

} // verus!
