//! The Reconciliation Engine's decisions: for one branch, from its
//! classification (and, where a prompt is needed, the user's answer) to the
//! action to perform. The surrounding loop — running repository commands and
//! showing prompts — stays outside; every decision is made here.

use vstd::prelude::*;
use crate::classify::{branch_wf, classify_of, BranchView, Classification, ClassificationView};
use crate::gateway::{cannot_force_update_text, indicates_cannot_force_update};
use crate::bytes::contains_spec;
use crate::errors::SyncError;

verus! {

/// The one action the engine takes on a branch once every needed answer is
/// in. `Push` is the non-forced push of a branch that is strictly ahead;
/// `SetLocalTo` moves the local reference to exactly the carried commit;
/// `ResetToRemoteTracking` is the confirmed hard reset of the primary branch;
/// `DeleteLocal` first checks out the primary branch when the branch to
/// delete is the current one. The three no-ops differ only in what the caller
/// should report: nothing, a divergence notice, or an unrecognized-input
/// warning.
#[derive(Debug)]
pub enum BranchAction {
    Noop,
    NoopDiverged,
    NoopUnrecognized,
    Push,
    PushWithUpstream,
    SetLocalTo(Vec<u8>),
    ResetToRemoteTracking,
    DeleteLocal { checkout_primary_first: bool },
}

/// Ghost mirror of `BranchAction`, with the carried commit as a sequence.
pub enum ActionView {
    Noop,
    NoopDiverged,
    NoopUnrecognized,
    Push,
    PushWithUpstream,
    SetLocalTo(Seq<u8>),
    ResetToRemoteTracking,
    DeleteLocal { checkout_primary_first: bool },
}

impl View for BranchAction {
    type V = ActionView;

    open spec fn view(&self) -> ActionView {
        match self {
            BranchAction::Noop => ActionView::Noop,
            BranchAction::NoopDiverged => ActionView::NoopDiverged,
            BranchAction::NoopUnrecognized => ActionView::NoopUnrecognized,
            BranchAction::Push => ActionView::Push,
            BranchAction::PushWithUpstream => ActionView::PushWithUpstream,
            BranchAction::SetLocalTo(t) => ActionView::SetLocalTo(t@),
            BranchAction::ResetToRemoteTracking => ActionView::ResetToRemoteTracking,
            BranchAction::DeleteLocal { checkout_primary_first } => ActionView::DeleteLocal {
                checkout_primary_first: *checkout_primary_first,
            },
        }
    }
}

/// True of the actions that mutate the repository; the three no-ops leave it
/// untouched.
pub open spec fn action_is_mutating(a: ActionView) -> bool {
    match a {
        ActionView::Noop => false,
        ActionView::NoopDiverged => false,
        ActionView::NoopUnrecognized => false,
        _ => true,
    }
}

/// What the general dispatch decides from a classification alone: an action,
/// or the free-text prompt of a branch whose remote is missing.
#[derive(Debug)]
pub enum BranchStep {
    Apply(BranchAction),
    NeedMissingChoice,
}

/// Ghost mirror of `BranchStep`.
pub enum StepView {
    Apply(ActionView),
    NeedMissingChoice,
}

impl View for BranchStep {
    type V = StepView;

    open spec fn view(&self) -> StepView {
        match self {
            BranchStep::Apply(a) => StepView::Apply(a@),
            BranchStep::NeedMissingChoice => StepView::NeedMissingChoice,
        }
    }
}

/// The general classification-to-action dispatch: equal and diverged branches
/// are left alone, a branch strictly ahead is pushed, a branch strictly
/// behind is fast-forwarded to the remote tip, and a branch without a remote
/// counterpart is put to the user.
pub open spec fn general_step_of(c: ClassificationView) -> StepView {
    match c {
        ClassificationView::Equal => StepView::Apply(ActionView::Noop),
        ClassificationView::LocalAhead => StepView::Apply(ActionView::Push),
        ClassificationView::RemoteAhead(t) => StepView::Apply(ActionView::SetLocalTo(t)),
        ClassificationView::Diverged => StepView::Apply(ActionView::NoopDiverged),
        ClassificationView::RemoteMissing => StepView::NeedMissingChoice,
    }
}

/// Decides the general (non-primary) handling of a classified branch.
pub fn general_dispatch(c: Classification) -> (s: BranchStep)
    ensures
        s@ == general_step_of(c@),
{
    match c {
        Classification::Equal => BranchStep::Apply(BranchAction::Noop),
        Classification::LocalAhead => BranchStep::Apply(BranchAction::Push),
        Classification::RemoteAhead(t) => BranchStep::Apply(BranchAction::SetLocalTo(t)),
        Classification::Diverged => BranchStep::Apply(BranchAction::NoopDiverged),
        Classification::RemoteMissing => BranchStep::NeedMissingChoice,
    }
}

/// The pre-check that the primary branch gets before the general dispatch: a
/// missing remote is fatal, a branch ahead of or diverged from the remote asks
/// for a confirmed reset, anything else falls through.
#[derive(Debug, PartialEq, Eq, Structural)]
pub enum PrimaryCheck {
    FatalRemoteMissing,
    AskReset,
    General,
}

/// What the primary pre-check decides from a classification alone.
pub open spec fn primary_check_of(c: ClassificationView) -> PrimaryCheck {
    match c {
        ClassificationView::RemoteMissing => PrimaryCheck::FatalRemoteMissing,
        ClassificationView::LocalAhead => PrimaryCheck::AskReset,
        ClassificationView::Diverged => PrimaryCheck::AskReset,
        ClassificationView::Equal => PrimaryCheck::General,
        ClassificationView::RemoteAhead(_) => PrimaryCheck::General,
    }
}

/// Runs the primary pre-check on a classified branch.
pub fn primary_check(c: &Classification) -> (r: PrimaryCheck)
    ensures
        r == primary_check_of(c@),
{
    match c {
        Classification::RemoteMissing => PrimaryCheck::FatalRemoteMissing,
        Classification::LocalAhead => PrimaryCheck::AskReset,
        Classification::Diverged => PrimaryCheck::AskReset,
        Classification::Equal => PrimaryCheck::General,
        Classification::RemoteAhead(_) => PrimaryCheck::General,
    }
}

/// Settles the primary branch after the reset prompt: a confirmed reset moves
/// it to the remote-tracking tip and ends the branch; a declined one falls
/// through to the general dispatch as for any other branch.
pub fn primary_reset_decision(c: Classification, confirmed: bool) -> (s: BranchStep)
    requires
        primary_check_of(c@) == PrimaryCheck::AskReset,
    ensures
        confirmed ==> s@ == StepView::Apply(ActionView::ResetToRemoteTracking),
        !confirmed ==> s@ == general_step_of(c@),
{
    if confirmed {
        BranchStep::Apply(BranchAction::ResetToRemoteTracking)
    } else {
        general_dispatch(c)
    }
}

/// The three offered answers to the missing-remote prompt, and the catch-all
/// for anything else.
#[derive(Debug, PartialEq, Eq, Structural)]
pub enum MissingChoice {
    Delete,
    PushToRemote,
    Nothing,
    Unrecognized,
}

/// What the first byte of the user's free-text answer selects: `d` deletion,
/// `p` the upstream-setting push, `n` nothing, anything else (an empty answer
/// included) a warning and nothing.
pub open spec fn missing_choice_of(input: Seq<u8>) -> MissingChoice {
    if input.len() > 0 && input[0] == 100 {
        MissingChoice::Delete
    } else if input.len() > 0 && input[0] == 112 {
        MissingChoice::PushToRemote
    } else if input.len() > 0 && input[0] == 110 {
        MissingChoice::Nothing
    } else {
        MissingChoice::Unrecognized
    }
}

/// Reads the user's free-text answer. Only a `Delete` answer makes the
/// current-branch question relevant, so only then need the caller resolve it.
pub fn missing_choice(input: &Vec<u8>) -> (c: MissingChoice)
    ensures
        c == missing_choice_of(input@),
{
    if input.len() > 0 && input[0] == 100 {
        MissingChoice::Delete
    } else if input.len() > 0 && input[0] == 112 {
        MissingChoice::PushToRemote
    } else if input.len() > 0 && input[0] == 110 {
        MissingChoice::Nothing
    } else {
        MissingChoice::Unrecognized
    }
}

/// What the free-text answer to the missing-remote prompt decides: deletion
/// checks out the primary branch first exactly when the branch to delete is
/// the current one.
pub open spec fn missing_action_of(input: Seq<u8>, is_current_branch: bool) -> ActionView {
    match missing_choice_of(input) {
        MissingChoice::Delete => ActionView::DeleteLocal {
            checkout_primary_first: is_current_branch,
        },
        MissingChoice::PushToRemote => ActionView::PushWithUpstream,
        MissingChoice::Nothing => ActionView::Noop,
        MissingChoice::Unrecognized => ActionView::NoopUnrecognized,
    }
}

/// Decides the missing-remote handling from the user's free-text answer.
pub fn resolve_missing_choice(input: &Vec<u8>, is_current_branch: bool) -> (a: BranchAction)
    ensures
        a@ == missing_action_of(input@, is_current_branch),
{
    match missing_choice(input) {
        MissingChoice::Delete => BranchAction::DeleteLocal {
            checkout_primary_first: is_current_branch,
        },
        MissingChoice::PushToRemote => BranchAction::PushWithUpstream,
        MissingChoice::Nothing => BranchAction::Noop,
        MissingChoice::Unrecognized => BranchAction::NoopUnrecognized,
    }
}

/// How a refused branch move is recovered: a "cannot force-update" refusal on
/// the checked-out branch falls back to a fast-forward-only pull in place;
/// every other failure propagates.
#[derive(Debug, PartialEq, Eq, Structural)]
pub enum ForceUpdateRecovery {
    PullFastForwardOnly,
    Propagate,
}

/// Decides the recovery from a refused branch move, from its error text.
pub fn force_update_recovery(error_text: &Vec<u8>) -> (r: ForceUpdateRecovery)
    ensures
        (r == ForceUpdateRecovery::PullFastForwardOnly) == contains_spec(
            error_text@,
            cannot_force_update_text(),
        ),
{
    if indicates_cannot_force_update(error_text) {
        ForceUpdateRecovery::PullFastForwardOnly
    } else {
        ForceUpdateRecovery::Propagate
    }
}

/// How the whole interaction on one branch ends: fatally (a primary branch
/// without a remote counterpart), or in one action.
pub enum OutcomeView {
    Fatal,
    Act(ActionView),
}

/// The engine's complete decision on one branch, primary pre-check included:
/// from the classification, whether the branch is the primary one, and the
/// answers the prompts would get where they are reached.
pub open spec fn branch_outcome_of(
    c: ClassificationView,
    is_primary: bool,
    reset_confirmed: bool,
    missing_input: Seq<u8>,
    is_current_branch: bool,
) -> OutcomeView {
    if is_primary && primary_check_of(c) == PrimaryCheck::FatalRemoteMissing {
        OutcomeView::Fatal
    } else if is_primary && primary_check_of(c) == PrimaryCheck::AskReset && reset_confirmed {
        OutcomeView::Act(ActionView::ResetToRemoteTracking)
    } else {
        match general_step_of(c) {
            StepView::Apply(a) => OutcomeView::Act(a),
            StepView::NeedMissingChoice => OutcomeView::Act(
                missing_action_of(missing_input, is_current_branch),
            ),
        }
    }
}

/// The engine's whole decision on one branch when every answer is already in
/// hand: the scripted, non-interactive form of the per-branch dispatch, for
/// callers that hold predetermined responses. A primary branch without a
/// remote counterpart is the one fatal case.
pub fn branch_outcome(
    c: Classification,
    is_primary: bool,
    reset_confirmed: bool,
    missing_input: &Vec<u8>,
    is_current_branch: bool,
) -> (r: Result<BranchAction, SyncError>)
    ensures
        (match branch_outcome_of(
            c@,
            is_primary,
            reset_confirmed,
            missing_input@,
            is_current_branch,
        ) {
            OutcomeView::Fatal => r == Err::<BranchAction, SyncError>(
                SyncError::RemoteMissingForPrimary,
            ),
            OutcomeView::Act(a) => r matches Ok(act) && act@ == a,
        }),
{
    let step = if is_primary {
        match primary_check(&c) {
            PrimaryCheck::FatalRemoteMissing => {
                return Err(SyncError::RemoteMissingForPrimary);
            },
            PrimaryCheck::AskReset => primary_reset_decision(c, reset_confirmed),
            PrimaryCheck::General => general_dispatch(c),
        }
    } else {
        general_dispatch(c)
    };
    match step {
        BranchStep::Apply(action) => Ok(action),
        BranchStep::NeedMissingChoice => Ok(
            resolve_missing_choice(missing_input, is_current_branch),
        ),
    }
}

/// The branch standing after the action is carried out and the remote state
/// read anew: a push makes the remote tip the local tip, a fast-forward or
/// reset makes the local tip the remote tip, and the no-ops change nothing.
/// (A deleted branch leaves the roll and has no further standing.)
pub open spec fn apply_action(v: BranchView, a: ActionView) -> BranchView {
    match a {
        ActionView::Push => BranchView {
            local: v.local,
            remote: Some(v.local),
            remote_is_ancestor_of_local: true,
            local_is_ancestor_of_remote: true,
        },
        ActionView::PushWithUpstream => BranchView {
            local: v.local,
            remote: Some(v.local),
            remote_is_ancestor_of_local: true,
            local_is_ancestor_of_remote: true,
        },
        ActionView::SetLocalTo(t) => BranchView {
            local: t,
            remote: v.remote,
            remote_is_ancestor_of_local: v.remote == Some(t),
            local_is_ancestor_of_remote: v.remote == Some(t),
        },
        ActionView::ResetToRemoteTracking => match v.remote {
            Some(r) => BranchView {
                local: r,
                remote: v.remote,
                remote_is_ancestor_of_local: true,
                local_is_ancestor_of_remote: true,
            },
            None => v,
        },
        _ => v,
    }
}

/// A branch whose tips are equal is classified `Equal`, and the engine leaves
/// it alone: no mutating command is issued for it.
pub proof fn lemma_equal_branch_left_alone(v: BranchView)
    requires
        branch_wf(v),
        v.remote is Some,
        v.local == v.remote->Some_0,
    ensures
        classify_of(v) == ClassificationView::Equal,
        general_step_of(classify_of(v)) == StepView::Apply(ActionView::Noop),
        !action_is_mutating(ActionView::Noop),
{
}

/// A branch whose local tip is a strict descendant of the remote tip is
/// classified `LocalAhead`, and the engine issues the non-forced push.
pub proof fn lemma_local_ahead_branch_pushed(v: BranchView)
    requires
        branch_wf(v),
        v.remote is Some,
        v.local != v.remote->Some_0,
        v.remote_is_ancestor_of_local,
    ensures
        classify_of(v) == ClassificationView::LocalAhead,
        general_step_of(classify_of(v)) == StepView::Apply(ActionView::Push),
{
}

/// A branch whose remote tip is a strict descendant of the local tip is
/// classified `RemoteAhead` with exactly the remote tip, and the engine moves
/// the local reference to exactly that commit.
pub proof fn lemma_remote_ahead_branch_fast_forwarded(v: BranchView)
    requires
        branch_wf(v),
        v.remote is Some,
        v.local != v.remote->Some_0,
        !v.remote_is_ancestor_of_local,
        v.local_is_ancestor_of_remote,
    ensures
        classify_of(v) == ClassificationView::RemoteAhead(v.remote->Some_0),
        general_step_of(classify_of(v)) == StepView::Apply(
            ActionView::SetLocalTo(v.remote->Some_0),
        ),
{
}

/// A branch with no ancestry ordering between the tips is classified
/// `Diverged`, and the engine leaves it alone: no mutating command is issued.
pub proof fn lemma_diverged_branch_left_alone(v: BranchView)
    requires
        branch_wf(v),
        v.remote is Some,
        v.local != v.remote->Some_0,
        !v.remote_is_ancestor_of_local,
        !v.local_is_ancestor_of_remote,
    ensures
        classify_of(v) == ClassificationView::Diverged,
        general_step_of(classify_of(v)) == StepView::Apply(ActionView::NoopDiverged),
        !action_is_mutating(ActionView::NoopDiverged),
{
}

/// A branch with no remote-tracking counterpart is classified
/// `RemoteMissing`, the engine asks for the free-text choice, and each answer
/// maps to exactly its path: `d` to deletion (checking out the primary branch
/// first when the branch is the current one), `p` to the upstream-setting
/// push, `n` to doing nothing.
pub proof fn lemma_remote_missing_choices(v: BranchView, is_current_branch: bool)
    requires
        v.remote is None,
    ensures
        classify_of(v) == ClassificationView::RemoteMissing,
        general_step_of(classify_of(v)) == StepView::NeedMissingChoice,
        forall|input: Seq<u8>|
            input.len() > 0 && input[0] == 100 ==> #[trigger] missing_action_of(
                input,
                is_current_branch,
            ) == (ActionView::DeleteLocal { checkout_primary_first: is_current_branch }),
        forall|input: Seq<u8>|
            input.len() > 0 && input[0] == 112 ==> #[trigger] missing_action_of(
                input,
                is_current_branch,
            ) == ActionView::PushWithUpstream,
        forall|input: Seq<u8>|
            input.len() > 0 && input[0] == 110 ==> #[trigger] missing_action_of(
                input,
                is_current_branch,
            ) == ActionView::Noop,
{
}

/// Idempotence of reconciliation: with prompts answered "do nothing" and the
/// reset declined, a branch the first run handled — by push, fast-forward, or
/// leaving it alone — calls for no mutating command on a second run over
/// unchanged remote state.
pub proof fn lemma_reconcile_idempotent(
    v: BranchView,
    is_primary: bool,
    input: Seq<u8>,
    is_current_branch: bool,
)
    requires
        branch_wf(v),
        !(is_primary && classify_of(v) is RemoteMissing),
        missing_action_of(input, is_current_branch) is Noop || missing_action_of(
            input,
            is_current_branch,
        ) is NoopUnrecognized,
    ensures
        ({
            let o1 = branch_outcome_of(classify_of(v), is_primary, false, input, is_current_branch);
            match o1 {
                OutcomeView::Fatal => false,
                OutcomeView::Act(a1) => {
                    let v2 = apply_action(v, a1);
                    branch_wf(v2) && match branch_outcome_of(
                        classify_of(v2),
                        is_primary,
                        false,
                        input,
                        is_current_branch,
                    ) {
                        OutcomeView::Fatal => false,
                        OutcomeView::Act(a2) => !action_is_mutating(a2),
                    }
                },
            }
        }),
{
}

} // verus!
