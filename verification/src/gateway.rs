//! Decoding of finished repository commands, and the recognition of the two
//! recoverable stderr conditions the reconciliation relies on.

use vstd::prelude::*;
use crate::bytes::{contains_bytes, contains_spec};

verus! {

/// A failed repository command with everything reported for diagnosis: the
/// subcommand, its arguments, the exit code where the process ran to an end,
/// and the captured stderr text.
#[derive(Debug)]
pub struct GatewayFailure {
    pub command: Vec<u8>,
    pub args: Vec<Vec<u8>>,
    pub exit_code: Option<i32>,
    pub stderr: Vec<u8>,
}

/// Decodes one finished repository command: decoded standard output on
/// success, otherwise a failure carrying the full diagnosis.
pub fn git(
    command: Vec<u8>,
    args: Vec<Vec<u8>>,
    success: bool,
    exit_code: Option<i32>,
    stdout: Vec<u8>,
    stderr: Vec<u8>,
) -> (r: Result<Vec<u8>, GatewayFailure>)
    ensures
        success ==> (r matches Ok(out) && out@ == stdout@),
        !success ==> (r matches Err(f) && f.command@ == command@ && f.args@ == args@
            && f.exit_code == exit_code && f.stderr@ == stderr@),
{
    if success {
        Ok(stdout)
    } else {
        Err(GatewayFailure { command, args, exit_code, stderr })
    }
}

/// The stderr text of a tip resolution that failed only because the reference
/// does not exist: "unknown revision".
pub open spec fn unknown_revision_text() -> Seq<u8> {
    seq![
        117u8, 110u8, 107u8, 110u8, 111u8, 119u8, 110u8, 32u8, 114u8, 101u8, 118u8, 105u8, 115u8,
        105u8, 111u8, 110u8,
    ]
}

/// The stderr text of a branch move refused because the branch is checked
/// out: "cannot force update the branch".
pub open spec fn cannot_force_update_text() -> Seq<u8> {
    seq![
        99u8, 97u8, 110u8, 110u8, 111u8, 116u8, 32u8, 102u8, 111u8, 114u8, 99u8, 101u8, 32u8,
        117u8, 112u8, 100u8, 97u8, 116u8, 101u8, 32u8, 116u8, 104u8, 101u8, 32u8, 98u8, 114u8,
        97u8, 110u8, 99u8, 104u8,
    ]
}

/// True exactly when a failed tip resolution reads as "reference not found":
/// the branch has no remote counterpart rather than a broken repository.
pub fn indicates_unknown_revision(error_text: &Vec<u8>) -> (r: bool)
    ensures
        r == contains_spec(error_text@, unknown_revision_text()),
{
    let needle: Vec<u8> = vec![
        117u8, 110u8, 107u8, 110u8, 111u8, 119u8, 110u8, 32u8, 114u8, 101u8, 118u8, 105u8, 115u8,
        105u8, 111u8, 110u8,
    ];
    proof {
        assert(needle@ =~= unknown_revision_text());
    }
    contains_bytes(error_text, &needle)
}

/// True exactly when a refused branch move reads as "cannot force-update the
/// checked-out branch", the one failure the fast-forward path recovers from.
pub fn indicates_cannot_force_update(error_text: &Vec<u8>) -> (r: bool)
    ensures
        r == contains_spec(error_text@, cannot_force_update_text()),
{
    let needle: Vec<u8> = vec![
        99u8, 97u8, 110u8, 110u8, 111u8, 116u8, 32u8, 102u8, 111u8, 114u8, 99u8, 101u8, 32u8,
        117u8, 112u8, 100u8, 97u8, 116u8, 101u8, 32u8, 116u8, 104u8, 101u8, 32u8, 98u8, 114u8,
        97u8, 110u8, 99u8, 104u8,
    ];
    proof {
        assert(needle@ =~= cannot_force_update_text());
    }
    contains_bytes(error_text, &needle)
}

} // verus!
