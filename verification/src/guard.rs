//! The Working-Tree Guard's decisions: whether the reconciliation may run
//! directly, must run between a stash and its restoration, or must not run at
//! all; and how the action's outcome and the restoration's outcome combine.

use vstd::prelude::*;
use crate::errors::SyncError;

verus! {

/// True when a short-status report shows no uncommitted changes: the
/// reconciliation run may proceed without stashing.
pub fn is_working_directory_clean(status: &Vec<u8>) -> (clean: bool)
    ensures
        clean == (status@.len() == 0),
{
    status.len() == 0
}

/// How the guarded action runs: directly on a clean tree; between a stash of
/// the uncommitted changes (untracked files included) and an unconditional
/// restoration, when the user agreed to stash; or not at all, the run failing
/// with a dirty-working-tree error, when the user declined.
#[derive(Debug, PartialEq, Eq, Structural)]
pub enum GuardPlan {
    RunDirect,
    StashRunRestore,
    FailDirty,
}

/// The plan the guard settles on, from the tree's state and — only where the
/// tree is dirty — the answer to the stash prompt.
pub open spec fn guard_plan_of(clean: bool, stash_confirmed: bool) -> GuardPlan {
    if clean {
        GuardPlan::RunDirect
    } else if stash_confirmed {
        GuardPlan::StashRunRestore
    } else {
        GuardPlan::FailDirty
    }
}

/// First guard step, from the tree's state alone: a clean tree runs the
/// action directly, a dirty one calls for the stash prompt.
pub fn guard_precheck(clean: bool) -> (ask_stash: bool)
    ensures
        clean ==> !ask_stash && guard_plan_of(clean, false) == GuardPlan::RunDirect,
        !clean ==> ask_stash,
{
    !clean
}

/// Second guard step, from the answer to the stash prompt: agreed, the action
/// runs between stash and restoration; declined, nothing runs and the run
/// fails with the dirty-working-tree error.
pub fn guard_stash_decision(stash_confirmed: bool) -> (r: Result<GuardPlan, SyncError>)
    ensures
        stash_confirmed ==> r == Ok::<GuardPlan, SyncError>(GuardPlan::StashRunRestore),
        !stash_confirmed ==> r == Err::<GuardPlan, SyncError>(SyncError::DirtyWorkingTree),
        (match r {
            Ok(plan) => plan == guard_plan_of(false, stash_confirmed),
            Err(_) => guard_plan_of(false, stash_confirmed) == GuardPlan::FailDirty,
        }),
{
    if stash_confirmed {
        Ok(GuardPlan::StashRunRestore)
    } else {
        Err(SyncError::DirtyWorkingTree)
    }
}

/// How a guarded run ends once the action — and, where a stash was made, its
/// restoration — have finished. A restoration failure is reported without
/// suppressing the action's own failure; where both fail, both are carried.
#[derive(Debug)]
pub enum GuardOutcome<E> {
    Completed,
    ActionFailed(E),
    RestoreFailed(E),
    ActionAndRestoreFailed(E, E),
}

/// Combines the action's result with the restoration's. `restore` is `None`
/// exactly where no stash was made and nothing was to restore.
pub fn finish_guarded<E>(action: Result<(), E>, restore: Option<Result<(), E>>) -> (r:
    GuardOutcome<E>)
    ensures
        (match (action, restore) {
            (Ok(()), None) => r is Completed,
            (Ok(()), Some(Ok(()))) => r is Completed,
            (Err(e), None) => r matches GuardOutcome::ActionFailed(ae) && ae == e,
            (Err(e), Some(Ok(()))) => r matches GuardOutcome::ActionFailed(ae) && ae == e,
            (Ok(()), Some(Err(p))) => r matches GuardOutcome::RestoreFailed(pe) && pe == p,
            (Err(e), Some(Err(p))) => r matches GuardOutcome::ActionAndRestoreFailed(ae, pe)
                && ae == e && pe == p,
        }),
{
    match (action, restore) {
        (Ok(()), None) => GuardOutcome::Completed,
        (Ok(()), Some(Ok(()))) => GuardOutcome::Completed,
        (Err(e), None) => GuardOutcome::ActionFailed(e),
        (Err(e), Some(Ok(()))) => GuardOutcome::ActionFailed(e),
        (Ok(()), Some(Err(p))) => GuardOutcome::RestoreFailed(p),
        (Err(e), Some(Err(p))) => GuardOutcome::ActionAndRestoreFailed(e, p),
    }
}

/// How many stash entries the plan creates.
pub open spec fn plan_stash_pushes(p: GuardPlan) -> nat {
    if p == GuardPlan::StashRunRestore {
        1
    } else {
        0
    }
}

/// How many stash entries the plan restores.
pub open spec fn plan_stash_restores(p: GuardPlan) -> nat {
    if p == GuardPlan::StashRunRestore {
        1
    } else {
        0
    }
}

/// The guard round-trip: whatever the tree's state and the user's answer,
/// the plan restores exactly as many stash entries as it creates — the stash
/// list returns to its size from before the run — and the tree is stashed at
/// all only when it was dirty and the user agreed.
pub proof fn lemma_guard_stash_balanced(clean: bool, stash_confirmed: bool)
    ensures
        plan_stash_restores(guard_plan_of(clean, stash_confirmed)) == plan_stash_pushes(
            guard_plan_of(clean, stash_confirmed),
        ),
        (guard_plan_of(clean, stash_confirmed) == GuardPlan::StashRunRestore) <==> (!clean
            && stash_confirmed),
{
}

} // verus!
