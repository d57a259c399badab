//! The stop policy: decides, from a just-applied entry and caller-supplied
//! limits, whether the driving loop should halt.

use vstd::prelude::*;
use crate::buffer::bytes_eq;
use crate::log_writes::{LogWriteEntry, LOG_MARK_FLAG};

verus! {

/// Replay halts on an entry when its flags intersect the stop mask, and
/// either the mask does not ask for checkpoints, or the entry is a MARK
/// checkpoint whose carried name equals the target name.
pub open spec fn spec_should_stop(flags: u64, cmd: Seq<u8>, stop_flags: u64, mark: Seq<u8>) -> bool {
    (flags & stop_flags) != 0 && ((stop_flags & LOG_MARK_FLAG) == 0 || ((flags & LOG_MARK_FLAG)
        != 0 && cmd == mark))
}

/// Returns 1 when replay should halt on `entry`, 0 otherwise.
pub fn should_stop(entry: &LogWriteEntry, stop_flags: u64, mark: &[u8]) -> (r: i32)
    ensures
        (r == 1) == spec_should_stop(entry.flags, entry.cmd@, stop_flags, mark@),
        r == 1 || r == 0,
{
    let flags = entry.flags;
    let check_mark = stop_flags & LOG_MARK_FLAG;
    if (flags & stop_flags) > 0 {
        if check_mark == 0 {
            return 1;
        }
        if (flags & LOG_MARK_FLAG) > 0 && bytes_eq(entry.cmd.as_slice(), mark) {
            return 1;
        }
    }
    0
}

} // verus!
