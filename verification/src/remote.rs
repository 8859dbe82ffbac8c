//! Everything that concerns the remote by name: the deterministic naming of
//! remote-tracking references, the default branch as `remote show` advertises
//! it, and the pull-request comparison URL built from the origin URL.

use vstd::prelude::*;
use crate::bytes::{
    concat_bytes, ends_with, has_prefix, has_suffix, matches_at, matches_at_spec, starts_with,
    subrange_copy, trim, trim_spec,
};
use crate::errors::SyncError;

verus! {

/// "remotes/" — the prefix the raw branch listing gives every remote-tracking
/// entry.
pub open spec fn remotes_prefix() -> Seq<u8> {
    seq![114u8, 101u8, 109u8, 111u8, 116u8, 101u8, 115u8, 47u8]
}

/// The bytes of "remotes/".
pub fn remotes_prefix_text() -> (r: Vec<u8>)
    ensures
        r@ == remotes_prefix(),
{
    let r: Vec<u8> = vec![114u8, 101u8, 109u8, 111u8, 116u8, 101u8, 115u8, 47u8];
    proof {
        assert(r@ =~= remotes_prefix());
    }
    r
}

/// The remote-tracking reference of `branch` under `remote`, as the raw
/// listing names it: `remotes/<remote>/<branch>`.
pub fn remote_tracking_ref(remote: &Vec<u8>, branch: &Vec<u8>) -> (r: Vec<u8>)
    ensures
        r@ == remotes_prefix() + remote@ + seq![47u8] + branch@,
{
    let p = remotes_prefix_text();
    let q = remote_ref(remote, branch);
    let r = concat_bytes(&p, &q);
    proof {
        assert(remotes_prefix() + (remote@ + seq![47u8] + branch@) =~= remotes_prefix() + remote@
            + seq![47u8] + branch@);
    }
    r
}

/// The short remote reference `<remote>/<branch>`: the reset target of the
/// primary branch, and the upstream a pushed branch tracks.
pub fn remote_ref(remote: &Vec<u8>, branch: &Vec<u8>) -> (r: Vec<u8>)
    ensures
        r@ == remote@ + seq![47u8] + branch@,
{
    let slash: Vec<u8> = vec![47u8];
    let a = concat_bytes(remote, &slash);
    proof {
        assert(slash@ =~= seq![47u8]);
    }
    let r = concat_bytes(&a, branch);
    proof {
        assert((remote@ + seq![47u8]) + branch@ =~= remote@ + seq![47u8] + branch@);
    }
    r
}

/// "HEAD branch: " — the marker line of `remote show` that names the
/// remote's default branch.
pub open spec fn head_branch_marker() -> Seq<u8> {
    seq![72u8, 69u8, 65u8, 68u8, 32u8, 98u8, 114u8, 97u8, 110u8, 99u8, 104u8, 58u8, 32u8]
}

/// The marker matches at `i` and at least one character follows it on the
/// same line.
pub open spec fn head_match_at(s: Seq<u8>, i: int) -> bool {
    matches_at_spec(s, i, head_branch_marker()) && i + 13 < s.len() && s[i + 13] != 10
}

/// The position of the first line break at or after `p`, or the end of `s`.
pub open spec fn line_end_from(s: Seq<u8>, p: int) -> int
    decreases s.len() - p,
{
    if p >= s.len() || p < 0 {
        s.len() as int
    } else if s[p] == 10 {
        p
    } else {
        line_end_from(s, p + 1)
    }
}

/// What the marker at `i` captures: the rest of its line.
pub open spec fn head_capture_at(s: Seq<u8>, i: int) -> Seq<u8> {
    s.subrange(i + 13, line_end_from(s, i + 13))
}

/// The remote's default branch, read from `remote show` output: the rest of
/// the line after the first "HEAD branch: " marker that is followed by at
/// least one character on its line; `None` where no such marker occurs.
pub fn head_branch_from_remote_show(output: &Vec<u8>) -> (r: Option<Vec<u8>>)
    ensures
        (match r {
            Some(c) => exists|i: int|
                (#[trigger] head_match_at(output@, i)) && (forall|j: int|
                    0 <= j < i ==> !head_match_at(output@, j)) && c@ == head_capture_at(output@, i),
            None => forall|i: int| !(#[trigger] head_match_at(output@, i)),
        }),
{
    let marker: Vec<u8> = vec![
        72u8, 69u8, 65u8, 68u8, 32u8, 98u8, 114u8, 97u8, 110u8, 99u8, 104u8, 58u8, 32u8,
    ];
    proof {
        assert(marker@ =~= head_branch_marker());
    }
    let mut i: usize = 0;
    while i < output.len()
        invariant
            marker@ == head_branch_marker(),
            i <= output@.len(),
            forall|j: int| 0 <= j < i ==> !head_match_at(output@, j),
        decreases output@.len() - i,
    {
        if matches_at(output, i, &marker) && output.len() - i > 13 && output[i + 13] != 10 {
            let start: usize = i + 13;
            let mut j: usize = start;
            while j < output.len() && output[j] != 10
                invariant
                    start <= j <= output@.len(),
                    line_end_from(output@, start as int) == line_end_from(output@, j as int),
                decreases output@.len() - j,
            {
                j = j + 1;
            }
            proof {
                assert(line_end_from(output@, j as int) == j as int);
                assert(head_match_at(output@, i as int));
            }
            return Some(subrange_copy(output, start, j));
        }
        i = i + 1;
    }
    proof {
        assert forall|i0: int| !(#[trigger] head_match_at(output@, i0)) by {
            if 0 <= i0 < output@.len() {
            } else {
            }
        }
    }
    None
}

/// The primary branch of a run: the explicit override where one was given,
/// otherwise the default branch the remote advertises in its `remote show`
/// output; fatal where neither names one.
pub fn resolve_primary(named: Option<Vec<u8>>, remote_show: &Vec<u8>) -> (r: Result<
    Vec<u8>,
    SyncError,
>)
    ensures
        (match named {
            Some(m) => r matches Ok(p) && p@ == m@,
            None => (match r {
                Ok(p) => exists|i: int|
                    (#[trigger] head_match_at(remote_show@, i)) && (forall|j: int|
                        0 <= j < i ==> !head_match_at(remote_show@, j)) && p@ == head_capture_at(
                        remote_show@,
                        i,
                    ),
                Err(e) => e == SyncError::DefaultBranchNotAdvertised && (forall|i: int|
                    !(#[trigger] head_match_at(remote_show@, i))),
            }),
        }),
{
    match named {
        Some(m) => Ok(m),
        None => match head_branch_from_remote_show(remote_show) {
            Some(c) => Ok(c),
            None => Err(SyncError::DefaultBranchNotAdvertised),
        },
    }
}

/// "git@github.com:" — the one origin URL shape the pull-request step
/// recognizes.
pub open spec fn ssh_github_prefix() -> Seq<u8> {
    seq![103u8, 105u8, 116u8, 64u8, 103u8, 105u8, 116u8, 104u8, 117u8, 98u8, 46u8, 99u8, 111u8,
        109u8, 58u8]
}

/// ".git"
pub open spec fn dot_git_suffix() -> Seq<u8> {
    seq![46u8, 103u8, 105u8, 116u8]
}

/// The trimmed origin URL has the recognized shape
/// `git@github.com:<org>/<repo>.git`.
pub open spec fn recognized_remote_url(t: Seq<u8>) -> bool {
    t.len() >= 19 && has_prefix(t, ssh_github_prefix()) && has_suffix(t, dot_git_suffix())
}

/// The `<org>/<repo>` part of a recognized origin URL.
pub open spec fn org_repo_of(t: Seq<u8>) -> Seq<u8> {
    t.subrange(15, t.len() - 4)
}

/// The comparison page for opening a pull request of `branch`:
/// `https://github.com/<org>/<repo>/compare/<branch>?expand=1`.
pub open spec fn compare_url_of(org_repo: Seq<u8>, branch: Seq<u8>) -> Seq<u8> {
    seq![104u8, 116u8, 116u8, 112u8, 115u8, 58u8, 47u8, 47u8, 103u8, 105u8, 116u8, 104u8, 117u8,
        98u8, 46u8, 99u8, 111u8, 109u8, 47u8] + org_repo + seq![47u8, 99u8, 111u8, 109u8, 112u8,
        97u8, 114u8, 101u8, 47u8] + branch + seq![63u8, 101u8, 120u8, 112u8, 97u8, 110u8, 100u8,
        61u8, 49u8]
}

/// Builds the pull-request comparison URL from the remote's origin URL. Only
/// the SSH-style shape above is recognized; any other shape is refused with
/// `UnrecognizedRemoteUrl`, which the caller reports and swallows.
pub fn pull_request_url(remote_url: &Vec<u8>, branch: &Vec<u8>) -> (r: Result<Vec<u8>, SyncError>)
    ensures
        recognized_remote_url(trim_spec(remote_url@)) ==> (r matches Ok(u) && u@ == compare_url_of(
            org_repo_of(trim_spec(remote_url@)),
            branch@,
        )),
        !recognized_remote_url(trim_spec(remote_url@)) ==> r == Err::<
            Vec<u8>,
            SyncError,
        >(SyncError::UnrecognizedRemoteUrl),
{
    let t = trim(remote_url);
    let prefix: Vec<u8> = vec![
        103u8, 105u8, 116u8, 64u8, 103u8, 105u8, 116u8, 104u8, 117u8, 98u8, 46u8, 99u8, 111u8,
        109u8, 58u8,
    ];
    let suffix: Vec<u8> = vec![46u8, 103u8, 105u8, 116u8];
    proof {
        assert(prefix@ =~= ssh_github_prefix());
        assert(suffix@ =~= dot_git_suffix());
    }
    if t.len() >= 19 && starts_with(&t, &prefix) && ends_with(&t, &suffix) {
        let org_repo = subrange_copy(&t, 15, t.len() - 4);
        let head: Vec<u8> = vec![
            104u8, 116u8, 116u8, 112u8, 115u8, 58u8, 47u8, 47u8, 103u8, 105u8, 116u8, 104u8,
            117u8, 98u8, 46u8, 99u8, 111u8, 109u8, 47u8,
        ];
        let mid: Vec<u8> = vec![47u8, 99u8, 111u8, 109u8, 112u8, 97u8, 114u8, 101u8, 47u8];
        let tail: Vec<u8> = vec![63u8, 101u8, 120u8, 112u8, 97u8, 110u8, 100u8, 61u8, 49u8];
        let a = concat_bytes(&head, &org_repo);
        let b = concat_bytes(&a, &mid);
        let c = concat_bytes(&b, branch);
        let u = concat_bytes(&c, &tail);
        proof {
            assert(u@ =~= compare_url_of(org_repo_of(trim_spec(remote_url@)), branch@));
        }
        Ok(u)
    } else {
        Err(SyncError::UnrecognizedRemoteUrl)
    }
}

} // verus!
