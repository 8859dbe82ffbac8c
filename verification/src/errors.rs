//! The failures a reconciliation run can end with, beyond a failed
//! repository command (which `gateway::GatewayFailure` carries in full).

use vstd::prelude::*;

verus! {

/// A dirty working tree whose stashing the user declined; a primary branch
/// whose remote counterpart is missing, fatal for the whole run; a remote
/// that advertises no default branch where none was named explicitly, fatal
/// too; and an origin URL of an unrecognized shape, which only the
/// pull-request convenience step refuses — it is reported and swallowed,
/// never fatal.
#[derive(Debug, PartialEq, Eq, Structural, Clone, Copy)]
pub enum SyncError {
    DirtyWorkingTree,
    RemoteMissingForPrimary,
    DefaultBranchNotAdvertised,
    UnrecognizedRemoteUrl,
}

} // verus!
