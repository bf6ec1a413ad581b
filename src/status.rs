//! Codec status codes and the error taxonomy they map to.

use vstd::prelude::*;

verus! {

/// The codec accepted the call.
pub const BZ_OK: i32 = 0;
/// Progress during a `run` step of compression.
pub const BZ_RUN_OK: i32 = 1;
/// Progress during a `flush` step of compression.
pub const BZ_FLUSH_OK: i32 = 2;
/// Progress during a `finish` step of compression; more output is pending.
pub const BZ_FINISH_OK: i32 = 3;
/// The stream is complete.
pub const BZ_STREAM_END: i32 = 4;
pub const BZ_SEQUENCE_ERROR: i32 = -1;
pub const BZ_PARAM_ERROR: i32 = -2;
pub const BZ_MEM_ERROR: i32 = -3;
pub const BZ_DATA_ERROR: i32 = -4;
/// The input does not start with the bzip2 magic bytes.
pub const BZ_DATA_ERROR_MAGIC: i32 = -5;
pub const BZ_IO_ERROR: i32 = -6;
pub const BZ_UNEXPECTED_EOF: i32 = -7;
pub const BZ_OUTBUFF_FULL: i32 = -8;
pub const BZ_CONFIG_ERROR: i32 = -9;

/// The closed set of failures reported to callers.
#[derive(Clone, Copy, Debug, PartialEq, Eq, Structural)]
pub enum ErrorKind {
    ConfigError,
    ParamError,
    MemError,
    DataError,
    /// Bad magic bytes or header.
    DataErrorMagic,
    IoError,
    UnexpectedEof,
    OutbuffFull,
    /// An operation was invoked in a state that does not admit it.
    SequenceError,
    UnknownError,
}

/// The error kind of a codec status; every status that is not a known
/// failure code maps to `UnknownError`.
pub open spec fn error_kind_of(code: i32) -> ErrorKind {
    if code == BZ_CONFIG_ERROR {
        ErrorKind::ConfigError
    } else if code == BZ_PARAM_ERROR {
        ErrorKind::ParamError
    } else if code == BZ_MEM_ERROR {
        ErrorKind::MemError
    } else if code == BZ_DATA_ERROR {
        ErrorKind::DataError
    } else if code == BZ_DATA_ERROR_MAGIC {
        ErrorKind::DataErrorMagic
    } else if code == BZ_IO_ERROR {
        ErrorKind::IoError
    } else if code == BZ_UNEXPECTED_EOF {
        ErrorKind::UnexpectedEof
    } else if code == BZ_OUTBUFF_FULL {
        ErrorKind::OutbuffFull
    } else if code == BZ_SEQUENCE_ERROR {
        ErrorKind::SequenceError
    } else {
        ErrorKind::UnknownError
    }
}

/// Maps a codec status to the error taxonomy. Never fails: unknown
/// codes become `UnknownError`.
pub fn error_kind(code: i32) -> (r: ErrorKind)
    ensures
        r == error_kind_of(code),
{
    match code {
        BZ_CONFIG_ERROR => ErrorKind::ConfigError,
        BZ_PARAM_ERROR => ErrorKind::ParamError,
        BZ_MEM_ERROR => ErrorKind::MemError,
        BZ_DATA_ERROR => ErrorKind::DataError,
        BZ_DATA_ERROR_MAGIC => ErrorKind::DataErrorMagic,
        BZ_IO_ERROR => ErrorKind::IoError,
        BZ_UNEXPECTED_EOF => ErrorKind::UnexpectedEof,
        BZ_OUTBUFF_FULL => ErrorKind::OutbuffFull,
        BZ_SEQUENCE_ERROR => ErrorKind::SequenceError,
        _ => ErrorKind::UnknownError,
    }
}

} // verus!
