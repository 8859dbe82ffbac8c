//! The Branch Classifier: the relationship of a local branch tip to its
//! remote-tracking counterpart, decided from the resolved tips and the two
//! ancestry answers.

use vstd::prelude::*;
use crate::bytes::{bytes_eq, trim, trim_spec};

verus! {

/// How a local branch stands to its remote counterpart. `RemoteAhead` carries
/// the trimmed remote tip, the commit to fast-forward the local reference to.
#[derive(Debug)]
pub enum Classification {
    Equal,
    LocalAhead,
    RemoteAhead(Vec<u8>),
    Diverged,
    RemoteMissing,
}

/// Ghost mirror of `Classification`, with the carried tip as a sequence.
pub enum ClassificationView {
    Equal,
    LocalAhead,
    RemoteAhead(Seq<u8>),
    Diverged,
    RemoteMissing,
}

impl View for Classification {
    type V = ClassificationView;

    open spec fn view(&self) -> ClassificationView {
        match self {
            Classification::Equal => ClassificationView::Equal,
            Classification::LocalAhead => ClassificationView::LocalAhead,
            Classification::RemoteAhead(t) => ClassificationView::RemoteAhead(t@),
            Classification::Diverged => ClassificationView::Diverged,
            Classification::RemoteMissing => ClassificationView::RemoteMissing,
        }
    }
}

/// One branch as the commit graph determines it: the trimmed local tip, the
/// trimmed remote tip where the remote-tracking reference exists, and the two
/// ancestry answers.
pub struct BranchView {
    pub local: Seq<u8>,
    pub remote: Option<Seq<u8>>,
    pub remote_is_ancestor_of_local: bool,
    pub local_is_ancestor_of_remote: bool,
}

/// The ancestry answers a commit graph can actually give: a commit is an
/// ancestor of itself, and two commits that are ancestors of each other are
/// the same commit.
pub open spec fn branch_wf(v: BranchView) -> bool {
    match v.remote {
        Some(r) => (v.local == r) <==> (v.remote_is_ancestor_of_local
            && v.local_is_ancestor_of_remote),
        None => true,
    }
}

/// What the classifier returns on a branch in standing `v`: missing remote
/// first, then tip equality, then the two ancestry answers in order.
pub open spec fn classify_of(v: BranchView) -> ClassificationView {
    match v.remote {
        None => ClassificationView::RemoteMissing,
        Some(r) => if v.local == r {
            ClassificationView::Equal
        } else if v.remote_is_ancestor_of_local {
            ClassificationView::LocalAhead
        } else if v.local_is_ancestor_of_remote {
            ClassificationView::RemoteAhead(r)
        } else {
            ClassificationView::Diverged
        },
    }
}

/// The trimmed tips as a branch standing, paired with the ancestry answers.
pub open spec fn standing_of(
    local_tip: Seq<u8>,
    remote_tip: Option<Seq<u8>>,
    remote_is_ancestor_of_local: bool,
    local_is_ancestor_of_remote: bool,
) -> BranchView {
    BranchView {
        local: trim_spec(local_tip),
        remote: match remote_tip {
            Some(t) => Some(trim_spec(t)),
            None => None,
        },
        remote_is_ancestor_of_local,
        local_is_ancestor_of_remote,
    }
}

/// The first classification step, from the resolved tips alone. `NeedAncestry`
/// carries the trimmed remote tip and calls for the ancestry queries.
#[derive(Debug)]
pub enum TipComparison {
    RemoteMissing,
    Equal,
    NeedAncestry(Vec<u8>),
}

/// Compares the two resolved tips byte for byte after trimming. Only when they
/// exist and differ are the ancestry queries needed.
pub fn compare_tips(local_tip: &Vec<u8>, remote_tip: &Option<Vec<u8>>) -> (r: TipComparison)
    ensures
        (match remote_tip {
            None => r is RemoteMissing,
            Some(t) => if trim_spec(local_tip@) == trim_spec(t@) {
                r is Equal
            } else {
                r matches TipComparison::NeedAncestry(n) && n@ == trim_spec(t@)
            },
        }),
{
    match remote_tip {
        None => TipComparison::RemoteMissing,
        Some(t) => {
            let l = trim(local_tip);
            let rt = trim(t);
            if bytes_eq(&l, &rt) {
                TipComparison::Equal
            } else {
                TipComparison::NeedAncestry(rt)
            }
        },
    }
}

/// Settles the branch after the first ancestry query (is the remote tip an
/// ancestor of the local tip?). `None` calls for the second query.
pub fn classify_after_remote_ancestry(remote_is_ancestor_of_local: bool) -> (r: Option<
    Classification,
>)
    ensures
        remote_is_ancestor_of_local ==> (r matches Some(c) && c is LocalAhead),
        !remote_is_ancestor_of_local ==> r is None,
{
    if remote_is_ancestor_of_local {
        Some(Classification::LocalAhead)
    } else {
        None
    }
}

/// Settles the branch after the second ancestry query (is the local tip an
/// ancestor of the remote tip?): fast-forward target, or divergence.
pub fn classify_after_local_ancestry(remote_tip: Vec<u8>, local_is_ancestor_of_remote: bool) -> (r:
    Classification)
    ensures
        local_is_ancestor_of_remote ==> r@ == ClassificationView::RemoteAhead(remote_tip@),
        !local_is_ancestor_of_remote ==> r is Diverged,
{
    if local_is_ancestor_of_remote {
        Classification::RemoteAhead(remote_tip)
    } else {
        Classification::Diverged
    }
}

/// The whole classifier in one call, for a caller that already holds both
/// ancestry answers.
pub fn classify(
    local_tip: &Vec<u8>,
    remote_tip: &Option<Vec<u8>>,
    remote_is_ancestor_of_local: bool,
    local_is_ancestor_of_remote: bool,
) -> (r: Classification)
    ensures
        r@ == classify_of(
            standing_of(
                local_tip@,
                match remote_tip {
                    Some(t) => Some(t@),
                    None => None,
                },
                remote_is_ancestor_of_local,
                local_is_ancestor_of_remote,
            ),
        ),
{
    match compare_tips(local_tip, remote_tip) {
        TipComparison::RemoteMissing => Classification::RemoteMissing,
        TipComparison::Equal => Classification::Equal,
        TipComparison::NeedAncestry(rt) => {
            match classify_after_remote_ancestry(remote_is_ancestor_of_local) {
                Some(c) => c,
                None => classify_after_local_ancestry(rt, local_is_ancestor_of_remote),
            }
        },
    }
}

} // verus!
