//! Buffer management and session lifecycle for a bzip2 compression service.
//!
//! The codec itself is driven by the caller: the functions here decide how
//! large each output window is, what a codec status means, when a one-shot
//! call is retried with a larger buffer, and when a streaming session must
//! release its codec state.

pub mod buffer;
pub mod oneshot;
pub mod status;
pub mod stream;
