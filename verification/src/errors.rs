//! The fatal errors a run can hit, and the process exit status each one
//! carries. Snapshot mismatches are not here: they are recorded, reported,
//! and folded into the final exit status only after every comparison.

use vstd::prelude::*;

verus! {

/// Everything that stops a run before its summary. Each is attempted-once:
/// there is no retry anywhere.
#[derive(Clone, Copy, Debug, PartialEq, Eq, Structural)]
pub enum FatalError {
    /// The plan file is missing or unreadable.
    ConfigLoadFailure,
    /// The plan file does not parse, or breaks the plan's invariants.
    ConfigParseFailure,
    /// A command string cannot be split into a program and arguments.
    CommandTokenizeFailure,
    /// A process could not be started, or exited with a non-zero status.
    CommandSpawnOrExecFailure,
    /// Creating or writing a snapshot file failed during an update.
    SnapshotWriteFailure,
    /// A test id had no captured output when compared, although every test
    /// runs before any comparison. The run stops at once, yet reports exit
    /// status zero — a knowingly kept quirk of this engine.
    InternalConsistencyFailure,
}

/// The process exit status a fatal error carries.
pub open spec fn spec_fatal_exit_status(e: FatalError) -> int {
    match e {
        FatalError::InternalConsistencyFailure => 0,
        _ => 1,
    }
}

/// The exit status for a run stopped by a fatal error: 1, except for the
/// internal-consistency case, which exits 0.
pub fn fatal_exit_status(e: FatalError) -> (status: i32)
    ensures
        status == spec_fatal_exit_status(e),
{
    match e {
        FatalError::InternalConsistencyFailure => 0,
        _ => 1,
    }
}

} // verus!
