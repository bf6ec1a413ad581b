//! Output windows handed to the codec, and the bytes it leaves in them.

use crate::status::ErrorKind;
use vstd::prelude::*;

verus! {

/// The codec describes every buffer length with 32 bits.
pub open spec fn window_len(n: int) -> int {
    if n <= u32::MAX {
        n
    } else {
        u32::MAX as int
    }
}

/// The bytes the codec wrote into `buffer`, which it received whole and
/// left with `avail_out` bytes unused at the end.
pub open spec fn written(buffer: Seq<u8>, avail_out: u32) -> Seq<u8> {
    buffer.take(buffer.len() - avail_out)
}

/// The first `n` bytes of `buffer`, or all of it when it is shorter.
pub open spec fn prefix(buffer: Seq<u8>, n: int) -> Seq<u8> {
    if n <= buffer.len() {
        buffer.take(n)
    } else {
        buffer
    }
}

/// `n` zero bytes.
pub open spec fn zeroed(n: int) -> Seq<u8> {
    Seq::new(n as nat, |i: int| 0u8)
}

/// `r` is a zeroed window of the size that `w` gives, or the same error.
pub open spec fn window_matches(r: Result<Vec<u8>, ErrorKind>, w: Result<int, ErrorKind>) -> bool {
    match (r, w) {
        (Ok(b), Ok(n)) => b@ == zeroed(n),
        (Err(e), Err(f)) => e == f,
        _ => false,
    }
}

/// A zeroed output window of `n` bytes, capped at what 32 bits describe.
pub fn output_window(n: u64) -> (r: Vec<u8>)
    ensures
        r@ == zeroed(window_len(n as int)),
{
    let len: u64 = if n <= u32::MAX as u64 {
        n
    } else {
        u32::MAX as u64
    };
    let r = vec![0u8; len as usize];
    assert(r@ == Seq::new(len as nat, |i: int| 0u8));
    r
}

/// Appends to `out` what the codec wrote into `buffer`.
pub fn append_written(out: &mut Vec<u8>, buffer: &[u8], avail_out: u32)
    requires
        avail_out <= buffer@.len(),
    ensures
        final(out)@ == old(out)@ + written(buffer@, avail_out),
{
    let n: usize = buffer.len() - avail_out as usize;
    let mut i: usize = 0;
    while i < n
        invariant
            n == buffer@.len() - avail_out,
            i <= n,
            out@ == old(out)@ + buffer@.take(i as int),
        decreases n - i,
    {
        out.push(buffer[i]);
        assert(buffer@.take(i + 1) == buffer@.take(i as int).push(buffer@[i as int]));
        i = i + 1;
    }
}

/// Cuts `buffer` down to the `n` bytes the codec reported.
pub fn keep_prefix(buffer: Vec<u8>, n: u32) -> (r: Vec<u8>)
    ensures
        r@ == prefix(buffer@, n as int),
{
    let mut b = buffer;
    b.truncate(n as usize);
    b
}

} // verus!
