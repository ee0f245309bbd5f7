use floatctf_awd::round::phase_text;
use floatctf_awd::awd_event::{
    AwdPhase, ban_in_event, container_target, plan_archive, require_active_ban, require_team_network, ArchiveStep, AwdEventStatus,
};
use floatctf_awd::awdp_access::{
    catalog_lists, competition_break_patch, competition_finish_patch, competition_source_gate, practice_end_gate,
    practice_judge_event_gate, practice_source_gate, practice_start_gate, require_active_run, require_awdp_event,
    require_instance, require_run_owner, require_started, resolve_subject, score_sum, source_artifact_key,
    sse_data_frame, subject_owns, wants_solved, writeup_log_text, SourceArchive, Subject, STREAM_CONNECTED,
};
use floatctf_awd::awdp_config::{AwdpConfig, AwdpConfigPatch};
use floatctf_awd::awdp_lease::{heartbeat_reply, HeartbeatOutcome};
use floatctf_awd::awdp_phase::AwdpPhase;
use floatctf_awd::awdp_subnet::{allocation_block, network_insert_raced, STATUS_ALLOCATED, STATUS_DEPLOYED, STATUS_RELEASED};
use floatctf_awd::cidr::Ipv4Cidr;
use floatctf_awd::awdp_store::{
    applied_by_cutoff, apply_mount_flags, apply_runtime_state, break_insert_failure, check_config_patch,
    competition_run_gate, competition_run_raced, official_evaluation_raced, instance_insert_failure, instance_scope_gate, is_stale_applying,
    mount_gate, mount_insert_failure, new_competition_run, new_practice_run, owner_of, patch_final_status,
    pick_unstarted, plan_config_update, practice_run_insert_failure, run_is_due, score_insert_failure,
    AwdpEventRow, CompetitionRunStart, InstanceRuntime, MountFlags, Owner, STALE_APPLYING_MESSAGE,
};
use floatctf_awd::error::{AwdError, AwdpError, GameboxError};
use floatctf_awd::firewall::{network_revision, next_network_revision, parse_u64};
use floatctf_awd::gamebox::{
    built_image_id, meta_error, pushed_digest, registry_auth_configured, MetaErrorKind, resolve_runtime_settings, safe_name_base, safe_name_candidate, GameboxRevision, RuntimeInputs,
};
use floatctf_awd::judge::{dispatch_reply, judgeserver_url, require_internal_token, round_token_parts};
use floatctf_awd::precheck::require_event_network;
use floatctf_awd::submission::{
    attack_insert_failure, submission_insert_failure, submission_step_failure, SubmissionStep,
};

const RUN: u128 = 0x0123_4567_89ab_cdef_0123_4567_89ab_cdef;

fn config() -> AwdpConfig {
    AwdpConfig {
        break_duration_secs: 3600,
        fix_duration_secs: 3600,
        fix_round_interval_secs: 600,
        break_score: 1000,
        fix_round_score: 150,
    }
}

#[test]
fn owner_needs_exactly_one_subject() {
    assert_eq!(owner_of(Some(1), None).unwrap(), Owner::User(1));
    assert_eq!(owner_of(None, Some(2)).unwrap(), Owner::Team(2));
    match owner_of(Some(1), Some(2)) {
        Err(AwdpError::Internal(m)) => assert_eq!(m, "exactly-one owner required"),
        other => panic!("unexpected {other:?}"),
    }
    assert!(owner_of(None, None).is_err());
}

#[test]
fn insert_failures_resolve_by_index_name() {
    let clash = "duplicate key value violates unique constraint \"awdp_breaks_team_uidx\"";
    assert_eq!(break_insert_failure(Some(clash), clash.to_string()).unwrap(), false);
    match break_insert_failure(None, clash.to_string()) {
        Err(AwdpError::Database(m)) => assert_eq!(m, clash),
        other => panic!("unexpected {other:?}"),
    }
    match instance_insert_failure(Some("awdp_instances_subject_uidx"), "x".to_string()) {
        AwdpError::Conflict(m) => assert_eq!(m, "该 GameBox 已有一个进行中的实例（subject × gamebox 唯一）"),
        other => panic!("unexpected {other:?}"),
    }
    assert_eq!(instance_insert_failure(Some("other"), "boom".to_string()), AwdpError::Database("boom".to_string()));
    match mount_insert_failure(Some("awdp_event_gameboxes_unique"), "x".to_string()) {
        AwdpError::Conflict(m) => assert_eq!(m, "该 GameBox 已挂载到本赛事"),
        other => panic!("unexpected {other:?}"),
    }
    assert_eq!(score_insert_failure("awdp_score_events_idempotency_key_uidx".to_string()).unwrap(), false);
    assert!(score_insert_failure("timeout".to_string()).is_err());
    match practice_run_insert_failure("awdp_runs_event_active_uidx".to_string()) {
        AwdpError::Conflict(m) => assert_eq!(m, "该 GameBox 已有一个进行中的训练 run"),
        other => panic!("unexpected {other:?}"),
    }
    assert!(competition_run_raced("violates awdp_runs_event_active_uidx"));
    assert!(!competition_run_raced("connection reset"));
}

#[test]
fn instance_scope_rules() {
    assert!(instance_scope_gate(true, Some(1), None).is_ok());
    match instance_scope_gate(true, None, Some(2)) {
        Err(AwdpError::Validation(m)) => assert_eq!(m, "practice run 只支持 individual 主体"),
        other => panic!("unexpected {other:?}"),
    }
    match instance_scope_gate(false, None, None) {
        Err(AwdpError::Internal(m)) => assert_eq!(m, "competition instance 必须指定主体"),
        other => panic!("unexpected {other:?}"),
    }
    assert!(instance_scope_gate(false, None, Some(2)).is_ok());
}

#[test]
fn runtime_state_stamps_start_and_stop() {
    let mut inst = InstanceRuntime {
        runtime_state: "starting".to_string(),
        container_id: None,
        runtime_generation: 1,
        started_at: None,
        stopped_at: None,
        updated_at: 0,
    };
    apply_runtime_state(&mut inst, "running", Some("c1"), 2, 10);
    assert_eq!(inst.runtime_state, "running");
    assert_eq!(inst.container_id.as_deref(), Some("c1"));
    assert_eq!((inst.runtime_generation, inst.started_at, inst.stopped_at, inst.updated_at), (2, Some(10), None, 10));
    apply_runtime_state(&mut inst, "stopped", None, 2, 20);
    assert_eq!(inst.container_id.as_deref(), Some("c1"));
    assert_eq!((inst.started_at, inst.stopped_at), (Some(10), Some(20)));
}

#[test]
fn patch_bookkeeping() {
    assert_eq!(patch_final_status(true), "applied");
    assert_eq!(patch_final_status(false), "failed");
    assert!(is_stale_applying("applying", Some(5), 10));
    assert!(!is_stale_applying("applying", Some(10), 10));
    assert!(!is_stale_applying("applied", Some(5), 10));
    assert!(!is_stale_applying("applying", None, 10));
    assert!(STALE_APPLYING_MESSAGE.starts_with("stale applying recovered"));
    assert!(applied_by_cutoff("applied", Some(10), 10));
    assert!(!applied_by_cutoff("applied", Some(11), 10));
    assert!(!applied_by_cutoff("failed", Some(1), 10));
}

#[test]
fn due_runs_and_unstarted_events() {
    assert!(run_is_due(Some(5), AwdpPhase::Break, 5));
    assert!(!run_is_due(Some(6), AwdpPhase::Break, 5));
    assert!(!run_is_due(Some(1), AwdpPhase::Ended, 5));
    assert!(!run_is_due(None, AwdpPhase::Fix, 5));
    assert_eq!(pick_unstarted(&[1, 2, 3, 4, 5], &[2, 4], 10), vec![1, 3, 5]);
    assert_eq!(pick_unstarted(&[1, 2, 3, 4, 5], &[2], 2), vec![1, 3]);
    assert_eq!(pick_unstarted(&[1, 2], &[1, 2], 3), Vec::<u128>::new());
}

#[test]
fn mount_gate_and_flags() {
    assert!(mount_gate(RUN, Some("ready"), true, "web1").is_ok());
    match mount_gate(RUN, Some("building"), true, "web1") {
        Err(AwdpError::Validation(m)) => assert_eq!(
            m,
            "GameBox 01234567-89ab-cdef-0123-456789abcdef is not ready (status=Some(\"building\")); AWDP 要求完整 [awdp] capability"
        ),
        other => panic!("unexpected {other:?}"),
    }
    match mount_gate(RUN, None, true, "web1") {
        Err(AwdpError::Validation(m)) => assert!(m.contains("(status=None)")),
        other => panic!("unexpected {other:?}"),
    }
    match mount_gate(RUN, Some("ready"), false, "web1") {
        Err(AwdpError::Validation(m)) => {
            assert_eq!(m, "GameBox web1 没有 [awdp] capability（缺少 source.zip 产物），不能用于 AWDP")
        },
        other => panic!("unexpected {other:?}"),
    }
    let mut f = MountFlags { enabled: true, hidden: true, updated_at: 0 };
    apply_mount_flags(&mut f, false, None, 7);
    assert_eq!(f, MountFlags { enabled: false, hidden: true, updated_at: 7 });
    apply_mount_flags(&mut f, true, Some(false), 8);
    assert_eq!(f, MountFlags { enabled: true, hidden: false, updated_at: 8 });
}

#[test]
fn new_runs_start_pending() {
    let run = new_practice_run(&config(), 9, 4).unwrap();
    assert_eq!(run.phase, AwdpPhase::Pending);
    assert_eq!((run.gamebox_id, run.owner_user_id, run.total_rounds, run.next_action_at), (Some(9), Some(4), 6, None));
    let mut bad = config();
    bad.fix_round_interval_secs = 700;
    match new_practice_run(&bad, 9, 4) {
        Err(AwdpError::Validation(m)) => {
            assert_eq!(m, "fix_duration_secs (3600) must be divisible by fix_round_interval_secs (700)")
        },
        other => panic!("unexpected {other:?}"),
    }
    let c = new_competition_run(&config(), 77);
    assert_eq!((c.gamebox_id, c.owner_user_id, c.current_round, c.next_action_at), (None, None, 0, Some(77)));
    assert_eq!(competition_run_gate(&config(), true, true).unwrap(), CompetitionRunStart::ReuseActive);
    assert_eq!(competition_run_gate(&config(), false, false).unwrap(), CompetitionRunStart::Create);
    match competition_run_gate(&config(), false, true) {
        Err(AwdpError::InvalidState(m)) => assert_eq!(m, "该事件已经结束，不能重新启动"),
        other => panic!("unexpected {other:?}"),
    }
}

#[test]
fn config_update_is_optimistic_and_frozen_while_running() {
    let patch = AwdpConfigPatch {
        expected_updated_at: Some(100),
        break_duration_secs: Some(1800),
        fix_duration_secs: None,
        fix_round_interval_secs: None,
        break_score: None,
        fix_round_score: None,
    };
    assert_eq!(check_config_patch(&patch).unwrap(), 100);
    let mut no_token = patch;
    no_token.expected_updated_at = None;
    match check_config_patch(&no_token) {
        Err(AwdpError::Validation(m)) => assert_eq!(m, "expected_updated_at is required for config update"),
        other => panic!("unexpected {other:?}"),
    }
    let row = AwdpEventRow { config: config(), configuration_generation: 3, updated_at: 100 };
    let up = plan_config_update(RUN, &patch, 100, true, &row, false, 0).unwrap();
    assert_eq!(up.config.break_duration_secs, 1800);
    assert_eq!(up.configuration_generation, 4);
    assert_eq!(up.end_time, (1800 + 3600) * 1_000_000_000);
    match plan_config_update(RUN, &patch, 99, true, &row, false, 0) {
        Err(AwdpError::Conflict(m)) => assert_eq!(m, "concurrent awdp config update (expected_updated_at mismatch)"),
        other => panic!("unexpected {other:?}"),
    }
    match plan_config_update(RUN, &patch, 100, true, &row, true, 0) {
        Err(AwdpError::InvalidState(m)) => assert_eq!(m, "AWDP config is locked (event has an active run)"),
        other => panic!("unexpected {other:?}"),
    }
    match plan_config_update(RUN, &patch, 100, false, &row, false, 0) {
        Err(AwdpError::Validation(m)) => {
            assert_eq!(m, "event 01234567-89ab-cdef-0123-456789abcdef is not an AWDP event")
        },
        other => panic!("unexpected {other:?}"),
    }
}

#[test]
fn training_gates() {
    assert!(require_run_owner(Some(5), 5).is_ok());
    match require_run_owner(Some(5), 6) {
        Err(AwdpError::Forbidden(m)) => assert_eq!(m, "该训练 run 不属于你"),
        other => panic!("unexpected {other:?}"),
    }
    assert!(require_run_owner(None, 6).is_err());
    assert_eq!(practice_start_gate(AwdpPhase::Fix, Some(3)).unwrap(), 3);
    match practice_start_gate(AwdpPhase::Ended, Some(3)) {
        Err(AwdpError::InvalidState(m)) => assert_eq!(m, "只有 Break/Fix 阶段的练习 run 可以开始（当前 Ended）"),
        other => panic!("unexpected {other:?}"),
    }
    match practice_start_gate(AwdpPhase::Break, None) {
        Err(AwdpError::InvalidState(m)) => assert_eq!(m, "只有练习 run 支持手动开始"),
        other => panic!("unexpected {other:?}"),
    }
    match practice_end_gate(AwdpPhase::Pending, None) {
        Err(AwdpError::InvalidState(m)) => assert_eq!(m, "只有练习 run 支持手动结束"),
        other => panic!("unexpected {other:?}"),
    }
    match practice_end_gate(AwdpPhase::Pending, Some(1)) {
        Err(AwdpError::InvalidState(m)) => assert_eq!(m, "只有 Break/Fix 阶段的练习 run 可以结束（当前 Pending）"),
        other => panic!("unexpected {other:?}"),
    }
    assert!(practice_end_gate(AwdpPhase::Break, Some(1)).is_ok());
    assert!(practice_source_gate(AwdpPhase::Fix, Some(2), 2).is_ok());
    match practice_source_gate(AwdpPhase::Break, Some(2), 2) {
        Err(AwdpError::InvalidState(m)) => assert_eq!(m, "source.zip 仅在 Fix 阶段可下载"),
        other => panic!("unexpected {other:?}"),
    }
    match practice_source_gate(AwdpPhase::Fix, Some(2), 3) {
        Err(AwdpError::Validation(m)) => assert_eq!(m, "gamebox 不属于该训练 run"),
        other => panic!("unexpected {other:?}"),
    }
    match competition_source_gate(AwdpPhase::Break) {
        Err(AwdpError::InvalidState(m)) => assert_eq!(m, "source.tar.gz 仅在 Fix 阶段可下载"),
        other => panic!("unexpected {other:?}"),
    }
    assert_eq!(source_artifact_key(Some("k".to_string()), SourceArchive::Zip).unwrap(), "k");
    match source_artifact_key(None, SourceArchive::TarGz) {
        Err(AwdpError::NotFound(m)) => assert_eq!(m, "该 GameBox 没有 source.tar.gz 产物（无 [awdp] capability）"),
        other => panic!("unexpected {other:?}"),
    }
}

#[test]
fn player_gates_and_subjects() {
    match require_awdp_event(false) {
        Err(AwdpError::Validation(m)) => assert_eq!(m, "not an AWDP event"),
        other => panic!("unexpected {other:?}"),
    }
    assert_eq!(require_started(Some(4u8)).unwrap(), 4);
    match require_started::<u8>(None) {
        Err(AwdpError::InvalidState(m)) => assert_eq!(m, "AWDP 事件尚未开始"),
        other => panic!("unexpected {other:?}"),
    }
    match require_active_run::<u8>(None) {
        Err(AwdpError::InvalidState(m)) => assert_eq!(m, "AWDP 事件尚未启动（无 active run）"),
        other => panic!("unexpected {other:?}"),
    }
    match require_instance::<u8>(None) {
        Err(AwdpError::NotFound(m)) => assert_eq!(m, "instance not started"),
        other => panic!("unexpected {other:?}"),
    }
    let user = resolve_subject(false, 7, None).unwrap();
    assert_eq!(user, Subject { user_id: Some(7), team_id: None });
    let team = resolve_subject(true, 7, Some(9)).unwrap();
    assert_eq!(team, Subject { user_id: None, team_id: Some(9) });
    match resolve_subject(true, 7, None) {
        Err(AwdpError::Forbidden(m)) => assert_eq!(m, "you are not in any team for this event"),
        other => panic!("unexpected {other:?}"),
    }
    assert!(subject_owns(user, Some(7), None));
    assert!(!subject_owns(user, None, Some(7)));
    assert!(subject_owns(team, None, Some(9)));
    assert!(!subject_owns(Subject { user_id: Some(7), team_id: Some(9) }, Some(7), Some(9)));
    match practice_judge_event_gate(true, Some("other")) {
        Err(AwdpError::Validation(m)) => assert_eq!(m, "练习 Judge 仅可在 AWDPlusPractice 虚拟赛事配置"),
        other => panic!("unexpected {other:?}"),
    }
    assert!(practice_judge_event_gate(true, Some("awdp-practice")).is_ok());
}

#[test]
fn catalog_query_and_stream_text() {
    assert!(catalog_lists(None));
    assert!(catalog_lists(Some("awdp")));
    assert!(!catalog_lists(Some("awd")));
    for v in ["true", " TRUE ", "1", "Yes", "y", "是"] {
        assert!(wants_solved(v), "{v}");
    }
    for v in ["false", "0", "no", "", "yes please"] {
        assert!(!wants_solved(v), "{v}");
    }
    assert_eq!(writeup_log_text(true, RUN), "更新 AWDP Run 01234567-89ab-cdef-0123-456789abcdef 的 Writeup");
    assert_eq!(writeup_log_text(false, RUN), "创建 AWDP Run 01234567-89ab-cdef-0123-456789abcdef 的 Writeup");
    assert_eq!(sse_data_frame("{\"a\":1}"), "data: {\"a\":1}\n\n");
    assert_eq!(STREAM_CONNECTED, ": connected\n\n");
}

#[test]
fn admin_patches_and_score_sum() {
    let p = competition_break_patch(1_000, 60);
    assert_eq!(p.started_at, Some(1_000));
    assert_eq!(p.break_ends_at, Some(1_000 + 60 * 1_000_000_000));
    assert_eq!(p.next_action_at, p.break_ends_at);
    let f = competition_finish_patch(5);
    assert_eq!((f.finished_at, f.next_action_at, f.started_at), (Some(5), None, None));
    assert_eq!(score_sum(&[100, -30, 5]), 75);
    assert_eq!(score_sum(&[]), 0);
    assert!(heartbeat_reply(HeartbeatOutcome::Extended).is_ok());
    match heartbeat_reply(HeartbeatOutcome::NoLease) {
        Err(AwdpError::Conflict(m)) => assert_eq!(m, "no valid lease for evaluation"),
        other => panic!("unexpected {other:?}"),
    }
}

#[test]
fn runtime_settings_prefer_event_overrides() {
    let rev = GameboxRevision {
        id: RUN,
        image_ref: Some("web:1".to_string()),
        image_id: Some("sha256:local".to_string()),
        image_repo_digest: None,
        build_status: "ready".to_string(),
    };
    let inputs = RuntimeInputs {
        cpu_millis: 500,
        memory_bytes: 1 << 20,
        pids_limit: 64,
        healthcheck_override_json: Some("[{\"tcp\":22}]".to_string()),
        revision_healthchecks_json: "[]".to_string(),
        judge_timeout_secs: None,
        revision_judge_timeout_secs: Some(30),
        judge_retry_interval_secs: Some(5),
        revision_judge_retry_interval_secs: Some(9),
    };
    let s = resolve_runtime_settings(&rev, &inputs).unwrap();
    assert_eq!((s.cpu_millis, s.memory_bytes, s.pids_limit), (500, 1 << 20, 64));
    assert_eq!(s.healthchecks_json, "[{\"tcp\":22}]");
    assert_eq!((s.judge_timeout_secs, s.judge_retry_interval_secs), (Some(30), Some(5)));
    let building = GameboxRevision { build_status: "building".to_string(), ..rev };
    match resolve_runtime_settings(&building, &inputs) {
        Err(AwdError::Validation(m)) => {
            assert_eq!(m, "GameBox revision 01234567-89ab-cdef-0123-456789abcdef is not ready (status=building)")
        },
        Err(e) => panic!("unexpected {e:?}"),
        Ok(_) => panic!("unexpected success"),
    }
}

#[test]
fn safe_name_search() {
    assert_eq!(safe_name_base(""), "gamebox");
    assert_eq!(safe_name_base("web-1"), "web-1");
    assert_eq!(safe_name_candidate("web", 0).unwrap(), "web");
    assert_eq!(safe_name_candidate("web", 12).unwrap(), "web-12");
    assert_eq!(safe_name_candidate("web", 999).unwrap(), "web-999");
    match safe_name_candidate("web", 1000) {
        Err(AwdError::Internal(m)) => assert_eq!(m, "safe_name 去重溢出"),
        other => panic!("unexpected {other:?}"),
    }
}

#[test]
fn archive_and_ban_gates() {
    assert_eq!(plan_archive(AwdEventStatus::Finished).unwrap(), ArchiveStep::Archive);
    assert_eq!(plan_archive(AwdEventStatus::Archived).unwrap(), ArchiveStep::AlreadyArchived);
    match plan_archive(AwdEventStatus::Running) {
        Err(AwdError::InvalidState(m)) => assert_eq!(m, "Can only archive a finished event"),
        other => panic!("unexpected {other:?}"),
    }
    assert_eq!(container_target(Some("abc"), "box-1"), "abc");
    assert_eq!(container_target(None, "box-1"), "box-1");
    assert!(ban_in_event(1, 1).is_ok());
    match ban_in_event(1, 2) {
        Err(AwdError::Forbidden(m)) => assert_eq!(m, "Ban belongs to another event"),
        other => panic!("unexpected {other:?}"),
    }
    match require_active_ban::<u8>(None) {
        Err(AwdError::NotFound(m)) => assert_eq!(m, "No active ban found"),
        other => panic!("unexpected {other:?}"),
    }
    match require_team_network::<u8>(None) {
        Err(AwdError::NotFound(m)) => assert_eq!(m, "Team network not configured"),
        other => panic!("unexpected {other:?}"),
    }
    match require_event_network::<u8>(None) {
        Err(AwdError::NotFound(m)) => assert_eq!(m, "event network not allocated；请先在赛事网络页分配"),
        other => panic!("unexpected {other:?}"),
    }
}

#[test]
fn revision_setting_parses_like_str_parse() {
    assert_eq!(parse_u64("42"), Some(42));
    assert_eq!(parse_u64("+7"), Some(7));
    assert_eq!(parse_u64("18446744073709551615"), Some(u64::MAX));
    assert_eq!(parse_u64("18446744073709551616"), None);
    assert_eq!(parse_u64(""), None);
    assert_eq!(parse_u64("+"), None);
    assert_eq!(parse_u64("-1"), None);
    assert_eq!(parse_u64("12a"), None);
    for s in ["42", "+7", "0", "007", " 1", "1 "] {
        assert_eq!(parse_u64(s), s.parse::<u64>().ok(), "{s}");
    }
    assert_eq!(network_revision(None), 0);
    assert_eq!(network_revision(Some("x")), 0);
    assert_eq!(network_revision(Some("9")), 9);
    assert_eq!(next_network_revision(Some("9")), 10);
    assert_eq!(next_network_revision(None), 1);
}

#[test]
fn judge_dispatch_reply_and_token() {
    match require_internal_token("  ") {
        Err(AwdError::Validation(m)) => assert_eq!(m, "JudgeServer internal token is empty"),
        other => panic!("unexpected {other:?}"),
    }
    assert!(require_internal_token("t0k").is_ok());
    assert!(dispatch_reply(true, "200 OK", "", Ok(true)).is_ok());
    match dispatch_reply(true, "200 OK", "", Ok(false)) {
        Err(AwdError::Network(m)) => assert_eq!(m, "JudgeServer did not accept the batch"),
        other => panic!("unexpected {other:?}"),
    }
    match dispatch_reply(true, "200 OK", "", Err("expected value".to_string())) {
        Err(AwdError::Network(m)) => assert_eq!(m, "Invalid JudgeServer response: expected value"),
        other => panic!("unexpected {other:?}"),
    }
    let long = "é".repeat(400);
    match dispatch_reply(false, "502 Bad Gateway", &long, Ok(true)) {
        Err(AwdError::Network(m)) => {
            let head = "JudgeServer rejected batch with HTTP 502 Bad Gateway: ";
            assert!(m.starts_with(head));
            assert_eq!(m.len() - head.len(), 512);
        },
        other => panic!("unexpected {other:?}"),
    }
    match round_token_parts(false, true) {
        Err(AwdError::NotFound(m)) => assert_eq!(m, "JudgeServer token not configured"),
        other => panic!("unexpected {other:?}"),
    }
    match round_token_parts(true, false) {
        Err(AwdError::NotFound(m)) => assert_eq!(m, "JudgeServer token nonce not configured"),
        other => panic!("unexpected {other:?}"),
    }
    assert_eq!(judgeserver_url("10.0.0.3"), "http://10.0.0.3:8082");
}

#[test]
fn submission_failures() {
    match submission_insert_failure("duplicate key".to_string()) {
        AwdError::Conflict(m) => assert_eq!(m, "Already submitted (concurrent request)"),
        other => panic!("unexpected {other:?}"),
    }
    match attack_insert_failure("violates unique constraint".to_string()) {
        AwdError::Conflict(m) => assert_eq!(m, "Attack already scored"),
        other => panic!("unexpected {other:?}"),
    }
    assert_eq!(attack_insert_failure("io".to_string()), AwdError::Database("io".to_string()));
    assert_eq!(
        submission_step_failure(SubmissionStep::VictimLoss, "x"),
        AwdError::Database("Victim loss scoring failed: x".to_string())
    );
    assert_eq!(
        submission_step_failure(SubmissionStep::Transaction, "y"),
        AwdError::Database("Transaction failed: y".to_string())
    );
}

#[test]
fn evaluation_and_network_races() {
    assert!(official_evaluation_raced("duplicate key violates awdp_evaluations_official_uidx"));
    assert!(!official_evaluation_raced("deadlock detected"));
    assert!(network_insert_raced("ERROR: duplicate key value violates unique constraint"));
    assert!(!network_insert_raced("connection refused"));
    let c = Ipv4Cidr::parse("10.0.1.0/24").unwrap();
    assert_eq!(allocation_block(Some(c)).unwrap().to_string(), "10.0.1.0/24");
    match allocation_block(None) {
        Err(AwdpError::Internal(m)) => assert_eq!(m, "awdp event network pool exhausted"),
        other => panic!("unexpected {other:?}"),
    }
    assert_eq!((STATUS_ALLOCATED, STATUS_DEPLOYED, STATUS_RELEASED), ("allocated", "deployed", "released"));
}

#[test]
fn revision_written_reads_back() {
    for n in [0u64, 1, 9, 10, 12345, u64::MAX] {
        let text = n.to_string();
        assert_eq!(network_revision(Some(text.as_str())), n);
    }
}

#[test]
fn package_import_reports() {
    assert_eq!(
        meta_error(MetaErrorKind::UnknownField, "unknown field `x`"),
        AwdError::Validation("MANIFEST_UNKNOWN_FIELD: unknown field `x`".to_string())
    );
    assert_eq!(
        meta_error(MetaErrorKind::EmptyField, "name is empty"),
        AwdError::Validation("INVALID_MANIFEST: name is empty".to_string())
    );
    assert_eq!(
        meta_error(MetaErrorKind::Version, "bad"),
        AwdError::Validation("INVALID_VERSION: bad".to_string())
    );
    assert!(!registry_auth_configured(false, false, false));
    assert!(registry_auth_configured(false, true, false));
    assert_eq!(pushed_digest("repo@sha256:ab".to_string()).unwrap(), "repo@sha256:ab");
    assert_eq!(
        pushed_digest(String::new()),
        Err(AwdError::Docker("DIGEST_UNAVAILABLE: push succeeded but RepoDigest empty".to_string()))
    );
    assert_eq!(built_image_id(String::new(), "sha256:b".to_string()), "sha256:b");
    assert_eq!(built_image_id("sha256:i".to_string(), "sha256:b".to_string()), "sha256:i");
}

#[test]
fn gamebox_errors_keep_kind_and_message() {
    assert_eq!(AwdpError::from(GameboxError::Conflict("x".to_string())), AwdpError::Conflict("x".to_string()));
    assert_eq!(AwdpError::from(GameboxError::Docker("d".to_string())), AwdpError::Docker("d".to_string()));
    assert_eq!(AwdpError::from(GameboxError::NotFound("n".to_string())), AwdpError::NotFound("n".to_string()));
}

#[test]
fn notification_phase_names() {
    assert_eq!(phase_text(AwdPhase::Hardening), format!("{:?}", AwdPhase::Hardening).to_lowercase());
    assert_eq!(phase_text(AwdPhase::Attack), "attack");
    assert_eq!(phase_text(AwdPhase::Pause), "pause");
}

#[test]
fn map_meta_unknown_field_code() {
    let err = meta_error(MetaErrorKind::UnknownField, "unknown field `image_tag`");
    assert!(format!("{err:?}").contains("MANIFEST_UNKNOWN_FIELD"));
}
