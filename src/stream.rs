//! Streaming sessions: the lifecycle of one codec state, fed in chunks.
//!
//! A session is open from a successful codec `init` until the stream ends or
//! the session is torn down. Each feed or finish call asks the session for an
//! output window, makes the codec call, and hands the codec's answer back to
//! the session, which says what to do next. A session that is no longer open
//! refuses every call with `SequenceError` and never asks for the codec's
//! `end` primitive again.

use crate::buffer::{append_written, output_window, window_len, window_matches, written};
use crate::status::{
    error_kind, error_kind_of, ErrorKind, BZ_FINISH_OK, BZ_OK, BZ_RUN_OK, BZ_STREAM_END,
};
use vstd::prelude::*;

verus! {

/// Room added to the output window of a compression feed.
pub const DEFLATE_SLACK: u64 = 600;

/// Size of the output window of each finish step.
pub const FINISH_WINDOW: u64 = 4096;

/// Room added to the output window of a decompression feed.
pub const INFLATE_SLACK: u64 = 4096;

/// What the caller does after handing a codec answer to a session.
#[derive(Clone, Copy, Debug, PartialEq, Eq, Structural)]
pub enum StreamStep {
    /// Call the codec again with a fresh output window.
    Continue,
    /// The call is complete and the session stays open for more input.
    Ready,
    /// The stream is complete: release the codec state with its `end`
    /// primitive now. The session is closed.
    Finished,
    /// Abort the call with this error.
    Failed(ErrorKind),
}

/// The output window of a compression feed of `input_len` bytes, or why
/// there is none, for a session that is `open` or not.
pub open spec fn deflate_window(open: bool, input_len: int) -> Result<int, ErrorKind> {
    if !open {
        Err(ErrorKind::SequenceError)
    } else if input_len > u32::MAX {
        Err(ErrorKind::ParamError)
    } else {
        Ok(window_len(input_len + DEFLATE_SLACK))
    }
}

/// The next step after the codec answered `status` to a `run` step of a
/// compression feed and left `avail_in` bytes of the chunk unread. A feed
/// never changes whether the session is open.
pub open spec fn deflate_next(open: bool, status: i32, avail_in: u32) -> StreamStep {
    if !open {
        StreamStep::Failed(ErrorKind::SequenceError)
    } else if status == BZ_RUN_OK {
        if avail_in == 0 {
            StreamStep::Ready
        } else {
            StreamStep::Continue
        }
    } else {
        StreamStep::Failed(error_kind_of(status))
    }
}

/// The output window of each finish step, or why there is none.
pub open spec fn finish_window(open: bool) -> Result<int, ErrorKind> {
    if !open {
        Err(ErrorKind::SequenceError)
    } else {
        Ok(FINISH_WINDOW as int)
    }
}

/// The next step, and whether the session is still open, after the codec
/// answered `status` to a finish step.
pub open spec fn finish_next(open: bool, status: i32) -> (StreamStep, bool) {
    if !open {
        (StreamStep::Failed(ErrorKind::SequenceError), false)
    } else if status == BZ_STREAM_END {
        (StreamStep::Finished, false)
    } else if status == BZ_FINISH_OK {
        (StreamStep::Continue, true)
    } else {
        (StreamStep::Failed(error_kind_of(status)), true)
    }
}

/// The output window of a decompression feed of `input_len` bytes, or why
/// there is none.
pub open spec fn inflate_window(open: bool, input_len: int) -> Result<int, ErrorKind> {
    if !open {
        Err(ErrorKind::SequenceError)
    } else if input_len > u32::MAX {
        Err(ErrorKind::ParamError)
    } else {
        Ok(window_len(4 * input_len + INFLATE_SLACK))
    }
}

/// The next step, and whether the session is still open, after the codec
/// answered `status` to a decompression step and left `avail_in` bytes of
/// the fed chunk unread.
pub open spec fn inflate_next(open: bool, status: i32, avail_in: u32) -> (StreamStep, bool) {
    if !open {
        (StreamStep::Failed(ErrorKind::SequenceError), false)
    } else if status == BZ_STREAM_END {
        (StreamStep::Finished, false)
    } else if status == BZ_OK {
        if avail_in == 0 {
            (StreamStep::Ready, true)
        } else {
            (StreamStep::Continue, true)
        }
    } else {
        (StreamStep::Failed(error_kind_of(status)), true)
    }
}

/// Whether teardown owes a call of the codec's `end` primitive, and whether
/// the session is open afterwards.
pub open spec fn teardown_next(open: bool) -> (bool, bool) {
    (open, false)
}

/// The bytes an accumulator holds after a step of a session that was `open`.
pub open spec fn gathered(open: bool, before: Seq<u8>, buffer: Seq<u8>, avail_out: u32) -> Seq<
    u8,
> {
    if open {
        before + written(buffer, avail_out)
    } else {
        before
    }
}

/// A compression session. Its view is whether it is open.
pub struct CompressStream {
    initialized: bool,
}

impl View for CompressStream {
    type V = bool;

    closed spec fn view(&self) -> bool {
        self.initialized
    }
}

impl CompressStream {
    /// The session that follows the codec's `init`, which answered
    /// `init_status`. Construction is all or nothing.
    pub fn new(init_status: i32) -> (r: Result<CompressStream, ErrorKind>)
        ensures
            init_status == BZ_OK ==> (r matches Ok(s) && s@),
            init_status != BZ_OK ==> r == Err::<CompressStream, ErrorKind>(
                error_kind_of(init_status),
            ),
    {
        if init_status == BZ_OK {
            Ok(CompressStream { initialized: true })
        } else {
            Err(error_kind(init_status))
        }
    }

    pub fn is_initialized(&self) -> (r: bool)
        ensures
            r == self@,
    {
        self.initialized
    }

    /// The output window for a feed of `input_len` bytes.
    pub fn deflate_buffer(&self, input_len: usize) -> (r: Result<Vec<u8>, ErrorKind>)
        ensures
            window_matches(r, deflate_window(self@, input_len as int)),
    {
        if !self.initialized {
            return Err(ErrorKind::SequenceError);
        }
        if input_len > u32::MAX as usize {
            return Err(ErrorKind::ParamError);
        }
        Ok(output_window(input_len as u64 + DEFLATE_SLACK))
    }

    /// Takes the codec's answer to a `run` step of a feed: appends what it
    /// wrote into `buffer` to `output` and says what comes next. The feed goes
    /// on, with a fresh window, until the codec has taken in the whole chunk,
    /// so no byte fed is left behind. The session is not changed.
    pub fn deflate_step(
        &self,
        output: &mut Vec<u8>,
        status: i32,
        buffer: &[u8],
        avail_out: u32,
        avail_in: u32,
    ) -> (r: StreamStep)
        requires
            avail_out <= buffer@.len(),
        ensures
            r == deflate_next(self@, status, avail_in),
            final(output)@ == gathered(self@, old(output)@, buffer@, avail_out),
    {
        if !self.initialized {
            return StreamStep::Failed(ErrorKind::SequenceError);
        }
        append_written(output, buffer, avail_out);
        if status == BZ_RUN_OK {
            if avail_in == 0 {
                StreamStep::Ready
            } else {
                StreamStep::Continue
            }
        } else {
            StreamStep::Failed(error_kind(status))
        }
    }

    /// The output window for each step of `finish`.
    pub fn finish_buffer(&self) -> (r: Result<Vec<u8>, ErrorKind>)
        ensures
            window_matches(r, finish_window(self@)),
    {
        if !self.initialized {
            return Err(ErrorKind::SequenceError);
        }
        Ok(output_window(FINISH_WINDOW))
    }

    /// Takes the codec's answer to a finish step: appends what it wrote into
    /// `buffer` to `output` and says what comes next.
    pub fn finish_step(&mut self, output: &mut Vec<u8>, status: i32, buffer: &[u8], avail_out: u32)
        -> (r: StreamStep)
        requires
            avail_out <= buffer@.len(),
        ensures
            (r, final(self)@) == finish_next(old(self)@, status),
            final(output)@ == gathered(old(self)@, old(output)@, buffer@, avail_out),
    {
        if !self.initialized {
            return StreamStep::Failed(ErrorKind::SequenceError);
        }
        append_written(output, buffer, avail_out);
        if status == BZ_STREAM_END {
            self.initialized = false;
            StreamStep::Finished
        } else if status == BZ_FINISH_OK {
            StreamStep::Continue
        } else {
            StreamStep::Failed(error_kind(status))
        }
    }

    /// Closes the session; `true` when the codec's `end` primitive is owed
    /// now, which is the case only for a session that was still open.
    pub fn teardown(&mut self) -> (r: bool)
        ensures
            (r, final(self)@) == teardown_next(old(self)@),
    {
        let owed = self.initialized;
        self.initialized = false;
        owed
    }
}


/// A decompression session. Its view is whether it is open.
pub struct DecompressStream {
    initialized: bool,
}

impl View for DecompressStream {
    type V = bool;

    closed spec fn view(&self) -> bool {
        self.initialized
    }
}

impl DecompressStream {
    /// The session that follows the codec's decompression `init`, which
    /// answered `init_status`. Construction is all or nothing.
    pub fn new(init_status: i32) -> (r: Result<DecompressStream, ErrorKind>)
        ensures
            init_status == BZ_OK ==> (r matches Ok(s) && s@),
            init_status != BZ_OK ==> r == Err::<DecompressStream, ErrorKind>(
                error_kind_of(init_status),
            ),
    {
        if init_status == BZ_OK {
            Ok(DecompressStream { initialized: true })
        } else {
            Err(error_kind(init_status))
        }
    }

    pub fn is_initialized(&self) -> (r: bool)
        ensures
            r == self@,
    {
        self.initialized
    }

    /// The output window for a feed of `input_len` compressed bytes; the same
    /// window serves every codec step of that feed.
    pub fn inflate_buffer(&self, input_len: usize) -> (r: Result<Vec<u8>, ErrorKind>)
        ensures
            window_matches(r, inflate_window(self@, input_len as int)),
    {
        if !self.initialized {
            return Err(ErrorKind::SequenceError);
        }
        if input_len > u32::MAX as usize {
            return Err(ErrorKind::ParamError);
        }
        Ok(output_window(4 * input_len as u64 + INFLATE_SLACK))
    }

    /// Takes the codec's answer to a decompression step: appends what it
    /// wrote into `buffer` to `output` and says what comes next. The feed
    /// goes on until the codec has read the whole chunk or the stream ends;
    /// input after the end of the stream is discarded.
    pub fn inflate_step(
        &mut self,
        output: &mut Vec<u8>,
        status: i32,
        buffer: &[u8],
        avail_out: u32,
        avail_in: u32,
    ) -> (r: StreamStep)
        requires
            avail_out <= buffer@.len(),
        ensures
            (r, final(self)@) == inflate_next(old(self)@, status, avail_in),
            final(output)@ == gathered(old(self)@, old(output)@, buffer@, avail_out),
    {
        if !self.initialized {
            return StreamStep::Failed(ErrorKind::SequenceError);
        }
        append_written(output, buffer, avail_out);
        if status == BZ_STREAM_END {
            self.initialized = false;
            StreamStep::Finished
        } else if status == BZ_OK {
            if avail_in == 0 {
                StreamStep::Ready
            } else {
                StreamStep::Continue
            }
        } else {
            StreamStep::Failed(error_kind(status))
        }
    }

    /// Closes the session; `true` when the codec's `end` primitive is owed
    /// now, which is the case only for a session that was still open.
    pub fn teardown(&mut self) -> (r: bool)
        ensures
            (r, final(self)@) == teardown_next(old(self)@),
    {
        let owed = self.initialized;
        self.initialized = false;
        owed
    }
}

/// Teardown runs the codec's `end` primitive at most once: a second teardown
/// owes nothing, and neither does a teardown after the stream finished,
/// whether by a finish step or by a decompression step.
pub proof fn lemma_teardown_once(open: bool, status: i32, avail_in: u32)
    ensures
        teardown_next(teardown_next(open).1) == (false, false),
        finish_next(open, status).0 == StreamStep::Finished ==> teardown_next(
            finish_next(open, status).1,
        ) == (false, false),
        inflate_next(open, status, avail_in).0 == StreamStep::Finished ==> teardown_next(
            inflate_next(open, status, avail_in).1,
        ) == (false, false),
{
}

/// Only an open session reaches `Finished`, and it closes doing so: the
/// `end` primitive owed by the end of a stream is owed once.
pub proof fn lemma_finished_closes(open: bool, status: i32, avail_in: u32)
    ensures
        finish_next(open, status).0 == StreamStep::Finished <==> (open && status
            == BZ_STREAM_END),
        finish_next(open, status).0 == StreamStep::Finished ==> !finish_next(open, status).1,
        inflate_next(open, status, avail_in).0 == StreamStep::Finished <==> (open && status
            == BZ_STREAM_END),
        inflate_next(open, status, avail_in).0 == StreamStep::Finished ==> !inflate_next(
            open,
            status,
            avail_in,
        ).1,
        !open ==> !finish_next(open, status).1 && !inflate_next(open, status, avail_in).1
            && !teardown_next(open).1,
{
}

/// A session that has finished refuses every further feed and finish with
/// `SequenceError`, and the refusal leaves it as it was.
pub proof fn lemma_finished_refuses(
    open: bool,
    status: i32,
    avail_in: u32,
    later_status: i32,
    later_avail_in: u32,
    input_len: int,
)
    ensures
        finish_next(open, status).0 == StreamStep::Finished ==> ({
            let closed = finish_next(open, status).1;
            &&& deflate_window(closed, input_len) == Err::<int, ErrorKind>(
                ErrorKind::SequenceError,
            )
            &&& deflate_next(closed, later_status, later_avail_in) == StreamStep::Failed(
                ErrorKind::SequenceError,
            )
            &&& finish_window(closed) == Err::<int, ErrorKind>(ErrorKind::SequenceError)
            &&& finish_next(closed, later_status) == (
                StreamStep::Failed(ErrorKind::SequenceError),
                closed,
            )
        }),
        inflate_next(open, status, avail_in).0 == StreamStep::Finished ==> ({
            let closed = inflate_next(open, status, avail_in).1;
            &&& inflate_window(closed, input_len) == Err::<int, ErrorKind>(
                ErrorKind::SequenceError,
            )
            &&& inflate_next(closed, later_status, later_avail_in) == (
                StreamStep::Failed(ErrorKind::SequenceError),
                closed,
            )
        }),
        forall|before: Seq<u8>, buffer: Seq<u8>, avail_out: u32|
            #![trigger gathered(false, before, buffer, avail_out)]
            gathered(false, before, buffer, avail_out) == before,
{
}

} // verus!
