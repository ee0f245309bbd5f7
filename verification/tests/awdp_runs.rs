use floatctf_awd::awdp_phase::AwdpPhase;
use floatctf_awd::awdp_rounds::{insert_conflict, plan_fix_rounds, plan_round_materialization, round_complete, InsertConflict, RoundCandidate};
use floatctf_awd::awdp_run::{
    end_practice_session, launch_practice_run, rewind_practice_to_break, transition_fix_to_break, transition_run,
    AwdpRunState, PhaseTransitionPatch,
};
use floatctf_awd::error::AwdpError;

const SEC: i64 = 1_000_000_000;

fn run(phase: AwdpPhase, practice: bool) -> AwdpRunState {
    AwdpRunState {
        phase,
        is_practice: practice,
        break_duration_secs: 3600,
        started_at: Some(1),
        break_ends_at: Some(2),
        fix_started_at: Some(3),
        fix_ends_at: Some(4),
        finished_at: None,
        current_round: 5,
        next_action_at: Some(6),
        updated_at: 0,
    }
}

fn empty_patch() -> PhaseTransitionPatch {
    PhaseTransitionPatch {
        started_at: None,
        break_ends_at: None,
        fix_started_at: None,
        fix_ends_at: None,
        finished_at: None,
        current_round: None,
        next_action_at: None,
    }
}

#[test]
fn guarded_phase_move() {
    let mut r = run(AwdpPhase::Break, false);
    let patch = PhaseTransitionPatch { fix_started_at: Some(100), current_round: Some(1), ..empty_patch() };
    transition_run(&mut r, AwdpPhase::Break, AwdpPhase::PreparingFix, &patch, 50).unwrap();
    assert_eq!(r.phase, AwdpPhase::PreparingFix);
    assert_eq!(r.fix_started_at, Some(100));
    assert_eq!(r.current_round, 1);
    assert_eq!(r.started_at, Some(1));
    assert_eq!(r.updated_at, 50);
    let before = r;
    assert!(matches!(transition_run(&mut r, AwdpPhase::Break, AwdpPhase::PreparingFix, &patch, 60), Err(AwdpError::Conflict(_))));
    assert_eq!(r, before);
    match transition_run(&mut r, AwdpPhase::PreparingFix, AwdpPhase::Ended, &patch, 60) {
        Err(AwdpError::InvalidState(m)) => assert_eq!(m, "Invalid AWDP phase transition: PreparingFix -> Ended"),
        other => panic!("unexpected {other:?}"),
    }
}

#[test]
fn practice_fix_back_to_break() {
    let mut r = run(AwdpPhase::Fix, true);
    transition_fix_to_break(&mut r, 10 * SEC).unwrap();
    assert_eq!(r.phase, AwdpPhase::Break);
    assert_eq!(r.started_at, Some(10 * SEC));
    assert_eq!(r.break_ends_at, Some(3610 * SEC));
    assert_eq!(r.next_action_at, Some(3610 * SEC));
    assert_eq!((r.fix_started_at, r.fix_ends_at, r.current_round), (None, None, 0));
    let mut c = run(AwdpPhase::Fix, false);
    assert!(matches!(transition_fix_to_break(&mut c, 0), Err(AwdpError::InvalidState(_))));
    let mut b = run(AwdpPhase::Break, true);
    assert!(matches!(transition_fix_to_break(&mut b, 0), Err(AwdpError::Conflict(_))));
}

#[test]
fn practice_launch_and_end_are_idempotent() {
    let mut r = run(AwdpPhase::Pending, true);
    assert_eq!(launch_practice_run(&mut r, 0).unwrap(), true);
    assert_eq!(r.phase, AwdpPhase::Break);
    assert_eq!(r.break_ends_at, Some(3600 * SEC));
    let snapshot = r;
    assert_eq!(launch_practice_run(&mut r, 99).unwrap(), false);
    assert_eq!(r, snapshot);
    assert_eq!(end_practice_session(&mut r, 7).unwrap(), true);
    assert_eq!((r.phase, r.finished_at, r.next_action_at), (AwdpPhase::Ended, Some(7), None));
    let ended = r;
    assert_eq!(end_practice_session(&mut r, 8).unwrap(), false);
    assert_eq!(r, ended);
    let mut c = run(AwdpPhase::Pending, false);
    assert!(launch_practice_run(&mut c, 0).is_err());
    assert!(end_practice_session(&mut c, 0).is_err());
}

#[test]
fn rewind_gives_fresh_break() {
    let mut a = run(AwdpPhase::Fix, true);
    let mut b = run(AwdpPhase::Break, true);
    b.current_round = 0;
    rewind_practice_to_break(&mut a, true, 5).unwrap();
    rewind_practice_to_break(&mut b, true, 5).unwrap();
    assert_eq!(a, b);
    assert_eq!(a.next_action_at, None);
    let mut p = run(AwdpPhase::Pending, true);
    match rewind_practice_to_break(&mut p, false, 5) {
        Err(AwdpError::InvalidState(m)) => assert_eq!(m, "只有 Break/Fix 阶段的练习 run 支持开始/结束（当前 Pending）"),
        other => panic!("unexpected {other:?}"),
    }
}

#[test]
fn fix_rounds_fill_missing_windows() {
    let v = plan_fix_rounds(Some(0), 3600, 600, &[1, 2]).unwrap();
    assert_eq!(v.len(), 4);
    assert_eq!(v[0].sequence, 3);
    assert_eq!(v[0].starts_at, 1200 * SEC);
    assert_eq!(v[3].cutoff_at, 3600 * SEC);
    assert_eq!(plan_fix_rounds(Some(0), 3600, 700, &[]).unwrap().len(), 5);
    match plan_fix_rounds(None, 3600, 600, &[]) {
        Err(AwdpError::InvalidState(m)) => assert_eq!(m, "fix_started_at is not set"),
        other => panic!("unexpected {other:?}"),
    }
}

#[test]
fn due_round_evaluates_started_instances_once() {
    let cands = [
        RoundCandidate { instance_id: 1, never_started: false },
        RoundCandidate { instance_id: 2, never_started: true },
        RoundCandidate { instance_id: 3, never_started: false },
    ];
    assert_eq!(plan_round_materialization(true, &cands, &[3]).unwrap(), vec![1]);
    assert_eq!(plan_round_materialization(true, &cands, &[]).unwrap(), vec![1, 3]);
    assert_eq!(plan_round_materialization(false, &cands, &[]), None);
}

#[test]
fn round_completion_needs_all_expected_final() {
    assert!(round_complete(Some(2), 2, 0));
    assert!(!round_complete(Some(2), 1, 0));
    assert!(!round_complete(Some(2), 2, 1));
    assert!(round_complete(None, 1, 0));
    assert!(!round_complete(None, 0, 0));
    assert!(!round_complete(Some(0), 0, 0));
}

#[test]
fn racing_insert_retried_once() {
    let msg = "duplicate key value violates unique constraint \"awdp_evaluations_official_uidx\"";
    assert_eq!(insert_conflict(msg, false), InsertConflict::Retry);
    assert_eq!(insert_conflict(msg, true), InsertConflict::Fail);
    assert_eq!(insert_conflict("deadlock", false), InsertConflict::Fail);
}

use floatctf_awd::awdp_config::AwdpConfig;
use floatctf_awd::awdp_run::{overview_timeline, source_code_visible};

#[test]
fn overview_before_and_during_a_run() {
    let c = AwdpConfig::default();
    let t = overview_timeline(None, &c);
    assert_eq!((t.phase, t.total_rounds, t.current_round, t.started_at), (AwdpPhase::Pending, 6, 0, None));
    let r = run(AwdpPhase::Fix, false);
    let t = overview_timeline(Some(r), &c);
    assert_eq!((t.phase, t.current_round, t.fix_started_at, t.next_action_at), (AwdpPhase::Fix, 5, Some(3), Some(6)));
    assert!(source_code_visible(Some(AwdpPhase::Fix)));
    assert!(!source_code_visible(Some(AwdpPhase::Break)));
    assert!(!source_code_visible(None));
}

use floatctf_awd::awdp_run::{overview_gameboxes, overview_score, OverviewBox};

fn listed(id: u128, hidden: bool) -> OverviewBox {
    OverviewBox {
        id,
        gamebox_id: id + 100,
        name: format!("box{id}"),
        category: "web".to_string(),
        enabled: true,
        hidden,
        source_code_dir: Some(format!("/src/box{id}")),
    }
}

#[test]
fn overview_skips_hidden_boxes_and_shows_sources_only_in_fix() {
    let boxes = vec![listed(1, false), listed(2, true), listed(3, false)];
    let fix = overview_gameboxes(Some(AwdpPhase::Fix), &boxes);
    assert_eq!(fix.len(), 2);
    assert_eq!((fix[0].id, fix[1].id), (1, 3));
    assert_eq!(fix[0].source_code_dir.as_deref(), Some("/src/box1"));
    assert_eq!(fix[1].gamebox_id, 103);
    let brk = overview_gameboxes(Some(AwdpPhase::Break), &boxes);
    assert_eq!(brk.iter().map(|b| b.id).collect::<Vec<_>>(), vec![1, 3]);
    assert!(brk.iter().all(|b| b.source_code_dir.is_none()));
    let none = overview_gameboxes(None, &boxes);
    assert!(none.iter().all(|b| b.source_code_dir.is_none()));
    assert_eq!(none[1].name, "box3");
}

#[test]
fn overview_score_is_zero_without_a_run() {
    assert_eq!(overview_score(None), 0);
    assert_eq!(overview_score(Some(250)), 250);
    assert_eq!(overview_score(Some(-40)), -40);
}
