//! Replay of a recorded block-device write log onto a target image.
//!
//! The log stream holds a 32-byte superblock followed by fixed-size entry
//! records, each optionally followed by its payload. The library decodes the
//! stream, applies every entry to an in-memory image of the target device
//! (positioned writes, and discards with a sticky zero-fill fallback), and
//! decides when a driving loop should stop.

pub mod buffer;
pub mod log_writes;
pub mod policy;
pub mod reader;
pub mod replay;
pub mod util;

use vstd::prelude::*;

verus! {

/// Why a replay session failed. Discard being unsupported by the target is
/// not an error: it switches the session to the zero-fill fallback.
#[derive(Clone, Copy, Debug, PartialEq, Eq, Structural)]
pub enum ReplayError {
    /// The log is not in the expected format: magic mismatch at open.
    Format,
    /// A short read, short write, or an out-of-range access on either stream.
    Io,
    /// A zero-fill chunk was larger than the session's configured ceiling.
    SizeLimit,
}

} // verus!
