use branch_sync::classify::{classify, compare_tips, Classification, TipComparison};
use branch_sync::engine::{
    branch_outcome, force_update_recovery, general_dispatch, missing_choice, primary_check,
    primary_reset_decision, resolve_missing_choice, BranchAction, BranchStep,
    ForceUpdateRecovery, MissingChoice, PrimaryCheck,
};
use branch_sync::errors::SyncError;
use branch_sync::gateway::{git, indicates_unknown_revision, GatewayFailure};
use branch_sync::guard::{
    finish_guarded, guard_precheck, guard_stash_decision, GuardOutcome, GuardPlan,
};

fn b(s: &str) -> Vec<u8> {
    s.as_bytes().to_vec()
}

/// A simulated branch: the resolved tips and the two ancestry answers a
/// commit graph would give for them.
#[derive(Clone)]
struct SimBranch {
    local: Vec<u8>,
    remote: Option<Vec<u8>>,
    remote_is_ancestor_of_local: bool,
    local_is_ancestor_of_remote: bool,
}

fn classify_sim(s: &SimBranch) -> Classification {
    classify(&s.local, &s.remote, s.remote_is_ancestor_of_local, s.local_is_ancestor_of_remote)
}

/// Carries a decided action out against the simulated branch and counts it
/// when it mutates the repository.
fn apply_sim(s: &mut SimBranch, a: BranchAction, mutations: &mut usize) {
    match a {
        BranchAction::Noop | BranchAction::NoopDiverged | BranchAction::NoopUnrecognized => {}
        BranchAction::Push | BranchAction::PushWithUpstream => {
            s.remote = Some(s.local.clone());
            s.remote_is_ancestor_of_local = true;
            s.local_is_ancestor_of_remote = true;
            *mutations += 1;
        }
        BranchAction::SetLocalTo(t) => {
            s.local = t;
            s.remote_is_ancestor_of_local = true;
            s.local_is_ancestor_of_remote = true;
            *mutations += 1;
        }
        BranchAction::ResetToRemoteTracking => {
            s.local = s.remote.clone().expect("reset needs a remote");
            s.remote_is_ancestor_of_local = true;
            s.local_is_ancestor_of_remote = true;
            *mutations += 1;
        }
        BranchAction::DeleteLocal { .. } => {
            *mutations += 1;
        }
    }
}

/// One reconciliation pass over a simulated branch, prompts scripted to
/// decline the reset and answer "n".
fn reconcile_sim(s: &mut SimBranch, is_primary: bool, mutations: &mut usize) {
    let c = classify_sim(s);
    let step = if is_primary {
        match primary_check(&c) {
            PrimaryCheck::FatalRemoteMissing => panic!("fatal: primary remote missing"),
            PrimaryCheck::AskReset => primary_reset_decision(c, false),
            PrimaryCheck::General => general_dispatch(c),
        }
    } else {
        general_dispatch(c)
    };
    let action = match step {
        BranchStep::Apply(a) => a,
        BranchStep::NeedMissingChoice => resolve_missing_choice(&b("n"), false),
    };
    apply_sim(s, action, mutations);
}

#[test]
fn equal_branch_no_action() {
    let c = classify(&b("abc123\n"), &Some(b("abc123")), true, true);
    assert!(matches!(c, Classification::Equal));
    assert!(matches!(general_dispatch(c), BranchStep::Apply(BranchAction::Noop)));
}

#[test]
fn local_ahead_branch_is_pushed() {
    let c = classify(&b("beef"), &Some(b("cafe")), true, false);
    assert!(matches!(c, Classification::LocalAhead));
    assert!(matches!(general_dispatch(c), BranchStep::Apply(BranchAction::Push)));
}

#[test]
fn remote_ahead_branch_moves_to_remote_tip() {
    let c = classify(&b("cafe"), &Some(b("beef\n")), false, true);
    match &c {
        Classification::RemoteAhead(tip) => assert_eq!(tip, &b("beef")),
        other => panic!("expected RemoteAhead, got {:?}", other),
    }
    match general_dispatch(c) {
        BranchStep::Apply(BranchAction::SetLocalTo(tip)) => assert_eq!(tip, b("beef")),
        other => panic!("expected SetLocalTo, got {:?}", other),
    }
}

#[test]
fn diverged_branch_no_action() {
    let c = classify(&b("cafe"), &Some(b("beef")), false, false);
    assert!(matches!(c, Classification::Diverged));
    assert!(matches!(general_dispatch(c), BranchStep::Apply(BranchAction::NoopDiverged)));
}

#[test]
fn missing_remote_asks_and_maps_choices() {
    let c = classify(&b("cafe"), &None, false, false);
    assert!(matches!(c, Classification::RemoteMissing));
    assert!(matches!(general_dispatch(c), BranchStep::NeedMissingChoice));
    assert!(matches!(
        resolve_missing_choice(&b("d"), false),
        BranchAction::DeleteLocal { checkout_primary_first: false }
    ));
    assert!(matches!(
        resolve_missing_choice(&b("delete"), true),
        BranchAction::DeleteLocal { checkout_primary_first: true }
    ));
    assert!(matches!(resolve_missing_choice(&b("p"), false), BranchAction::PushWithUpstream));
    assert!(matches!(resolve_missing_choice(&b("n"), false), BranchAction::Noop));
    assert!(matches!(resolve_missing_choice(&b("x"), false), BranchAction::NoopUnrecognized));
    assert!(matches!(resolve_missing_choice(&b(""), false), BranchAction::NoopUnrecognized));
}

#[test]
fn missing_choice_reads_first_byte() {
    assert_eq!(missing_choice(&b("d")), MissingChoice::Delete);
    assert_eq!(missing_choice(&b("push")), MissingChoice::PushToRemote);
    assert_eq!(missing_choice(&b("n")), MissingChoice::Nothing);
    assert_eq!(missing_choice(&b("yes")), MissingChoice::Unrecognized);
    assert_eq!(missing_choice(&b("")), MissingChoice::Unrecognized);
}

#[test]
fn tip_comparison_trims_before_comparing() {
    assert!(matches!(compare_tips(&b(" abc \n"), &Some(b("abc"))), TipComparison::Equal));
    assert!(matches!(compare_tips(&b("abc"), &None), TipComparison::RemoteMissing));
    match compare_tips(&b("abc"), &Some(b("abd\n"))) {
        TipComparison::NeedAncestry(t) => assert_eq!(t, b("abd")),
        other => panic!("expected NeedAncestry, got {:?}", other),
    }
}

#[test]
fn primary_pre_check_routes() {
    assert_eq!(primary_check(&Classification::RemoteMissing), PrimaryCheck::FatalRemoteMissing);
    assert_eq!(primary_check(&Classification::LocalAhead), PrimaryCheck::AskReset);
    assert_eq!(primary_check(&Classification::Diverged), PrimaryCheck::AskReset);
    assert_eq!(primary_check(&Classification::Equal), PrimaryCheck::General);
    assert_eq!(
        primary_check(&Classification::RemoteAhead(b("beef"))),
        PrimaryCheck::General
    );
}

#[test]
fn primary_reset_confirmed_resets() {
    let step = primary_reset_decision(Classification::LocalAhead, true);
    assert!(matches!(step, BranchStep::Apply(BranchAction::ResetToRemoteTracking)));
    let step = primary_reset_decision(Classification::Diverged, true);
    assert!(matches!(step, BranchStep::Apply(BranchAction::ResetToRemoteTracking)));
}

#[test]
fn primary_reset_declined_falls_through_to_push() {
    // The primary branch locally ahead, reset declined: the general dispatch
    // takes over and issues the non-forced push.
    let c = classify(&b("local"), &Some(b("remote")), true, false);
    assert!(matches!(c, Classification::LocalAhead));
    assert_eq!(primary_check(&c), PrimaryCheck::AskReset);
    let step = primary_reset_decision(c, false);
    assert!(matches!(step, BranchStep::Apply(BranchAction::Push)));
}

#[test]
fn force_update_refusal_falls_back_to_pull() {
    let err = b("fatal: cannot force update the branch 'main' checked out at '/repo'");
    assert_eq!(force_update_recovery(&err), ForceUpdateRecovery::PullFastForwardOnly);
    assert_eq!(force_update_recovery(&b("fatal: out of memory")), ForceUpdateRecovery::Propagate);
}

#[test]
fn unknown_revision_is_recognized() {
    assert!(indicates_unknown_revision(&b(
        "fatal: ambiguous argument 'remotes/origin/x': unknown revision or path not in the working tree."
    )));
    assert!(!indicates_unknown_revision(&b("fatal: repository gone")));
}

#[test]
fn gateway_success_returns_stdout() {
    let r = git(b("status"), vec![b("--porcelain")], true, Some(0), b("out"), b(""));
    assert_eq!(r.expect("success"), b("out"));
}

#[test]
fn gateway_failure_carries_diagnosis() {
    let r = git(b("push"), vec![b("origin"), b("x")], false, Some(128), b(""), b("denied"));
    let f: GatewayFailure = r.expect_err("failure");
    assert_eq!(f.command, b("push"));
    assert_eq!(f.args, vec![b("origin"), b("x")]);
    assert_eq!(f.exit_code, Some(128));
    assert_eq!(f.stderr, b("denied"));
}

#[test]
fn guard_clean_tree_runs_directly() {
    assert!(!guard_precheck(true));
    assert!(guard_precheck(false));
    assert_eq!(guard_stash_decision(true), Ok(GuardPlan::StashRunRestore));
    assert_eq!(guard_stash_decision(false), Err(SyncError::DirtyWorkingTree));
}

#[test]
fn guard_stash_round_trip_restores_size() {
    // A dirty tree with a confirmed stash: the plan stashes once, runs, and
    // restores once, whatever the action's outcome — the stash list ends at
    // its starting size and the set-aside changes come back.
    let plan = guard_stash_decision(true).expect("a confirmed stash runs");
    assert_eq!(plan, GuardPlan::StashRunRestore);
    let tree_before = vec![b(" M file")];
    let mut stash_list: Vec<Vec<Vec<u8>>> = vec![];
    let before = stash_list.len();
    // stash push --include-untracked
    stash_list.push(tree_before.clone());
    let mut tree: Vec<Vec<u8>> = vec![];
    // the guarded action fails; restoration still runs
    let action: Result<(), &str> = Err("push failed");
    let restore: Option<Result<(), &str>> = Some(match stash_list.pop() {
        Some(changes) => {
            tree = changes;
            Ok(())
        }
        None => Err("nothing to restore"),
    });
    assert_eq!(stash_list.len(), before);
    assert_eq!(tree, tree_before);
    match finish_guarded(action, restore) {
        GuardOutcome::ActionFailed(e) => assert_eq!(e, "push failed"),
        other => panic!("expected the action's own failure, got {:?}", other),
    }
}

#[test]
fn guard_outcome_keeps_both_failures() {
    let r = finish_guarded::<&str>(Err("action"), Some(Err("restore")));
    match r {
        GuardOutcome::ActionAndRestoreFailed(a, p) => {
            assert_eq!(a, "action");
            assert_eq!(p, "restore");
        }
        other => panic!("expected both failures, got {:?}", other),
    }
    assert!(matches!(finish_guarded::<&str>(Ok(()), None), GuardOutcome::Completed));
    assert!(matches!(finish_guarded::<&str>(Ok(()), Some(Ok(()))), GuardOutcome::Completed));
    assert!(matches!(
        finish_guarded::<&str>(Ok(()), Some(Err("restore"))),
        GuardOutcome::RestoreFailed("restore")
    ));
}

#[test]
fn scripted_outcome_primary_missing_is_fatal() {
    let r = branch_outcome(Classification::RemoteMissing, true, false, &b("n"), false);
    assert!(matches!(r, Err(SyncError::RemoteMissingForPrimary)));
}

#[test]
fn scripted_outcome_follows_dispatch() {
    let r = branch_outcome(Classification::LocalAhead, false, false, &b("n"), false);
    assert!(matches!(r, Ok(BranchAction::Push)));
    let r = branch_outcome(Classification::LocalAhead, true, true, &b("n"), false);
    assert!(matches!(r, Ok(BranchAction::ResetToRemoteTracking)));
    let r = branch_outcome(Classification::LocalAhead, true, false, &b("n"), false);
    assert!(matches!(r, Ok(BranchAction::Push)));
    let r = branch_outcome(Classification::RemoteMissing, false, false, &b("d"), true);
    assert!(matches!(r, Ok(BranchAction::DeleteLocal { checkout_primary_first: true })));
}

#[test]
fn scenario_feature_fast_forwarded() {
    // feature at A, origin/feature at B, B a descendant of A: classification
    // RemoteAhead(B), and feature ends at B.
    let mut s = SimBranch {
        local: b("A"),
        remote: Some(b("B")),
        remote_is_ancestor_of_local: false,
        local_is_ancestor_of_remote: true,
    };
    let c = classify_sim(&s);
    match &c {
        Classification::RemoteAhead(tip) => assert_eq!(tip, &b("B")),
        other => panic!("expected RemoteAhead, got {:?}", other),
    }
    let mut mutations = 0;
    match general_dispatch(c) {
        BranchStep::Apply(a) => apply_sim(&mut s, a, &mut mutations),
        other => panic!("expected an action, got {:?}", other),
    }
    assert_eq!(s.local, b("B"));
    assert_eq!(mutations, 1);
}

#[test]
fn scenario_missing_remote_pushed_with_upstream() {
    // feature with no origin/feature, the user answers "p": the push with
    // upstream tracking runs and the remote ends at the local tip.
    let mut s = SimBranch {
        local: b("A"),
        remote: None,
        remote_is_ancestor_of_local: false,
        local_is_ancestor_of_remote: false,
    };
    let c = classify_sim(&s);
    assert!(matches!(c, Classification::RemoteMissing));
    assert!(matches!(general_dispatch(c), BranchStep::NeedMissingChoice));
    let action = resolve_missing_choice(&b("p"), false);
    assert!(matches!(action, BranchAction::PushWithUpstream));
    let mut mutations = 0;
    apply_sim(&mut s, action, &mut mutations);
    assert_eq!(s.remote, Some(b("A")));
    assert_eq!(mutations, 1);
}

#[test]
fn second_run_issues_no_mutating_command() {
    // Idempotence over a whole snapshot: first run settles every branch, the
    // second — same remote state, prompts declining everything — mutates
    // nothing.
    let mut branches = vec![
        (
            SimBranch {
                local: b("E"),
                remote: Some(b("E")),
                remote_is_ancestor_of_local: true,
                local_is_ancestor_of_remote: true,
            },
            false,
        ),
        (
            SimBranch {
                local: b("L2"),
                remote: Some(b("L1")),
                remote_is_ancestor_of_local: true,
                local_is_ancestor_of_remote: false,
            },
            false,
        ),
        (
            SimBranch {
                local: b("R1"),
                remote: Some(b("R2")),
                remote_is_ancestor_of_local: false,
                local_is_ancestor_of_remote: true,
            },
            false,
        ),
        (
            SimBranch {
                local: b("D1"),
                remote: Some(b("D2")),
                remote_is_ancestor_of_local: false,
                local_is_ancestor_of_remote: false,
            },
            false,
        ),
        (
            SimBranch {
                local: b("M"),
                remote: None,
                remote_is_ancestor_of_local: false,
                local_is_ancestor_of_remote: false,
            },
            false,
        ),
        (
            SimBranch {
                local: b("P2"),
                remote: Some(b("P1")),
                remote_is_ancestor_of_local: true,
                local_is_ancestor_of_remote: false,
            },
            true,
        ),
    ];
    let mut first = 0;
    for (s, is_primary) in branches.iter_mut() {
        reconcile_sim(s, *is_primary, &mut first);
    }
    assert_eq!(first, 3);
    let mut second = 0;
    for (s, is_primary) in branches.iter_mut() {
        reconcile_sim(s, *is_primary, &mut second);
    }
    assert_eq!(second, 0);
}
