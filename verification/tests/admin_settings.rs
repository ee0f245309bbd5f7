use floatctf_awd::awd_network::{NetworkAllocation, NetworkPool, WireGuardPortRange};
use floatctf_awd::awdp_lease::{claim_job, lease_token_hash, validate_claim_request, AwdpEvaluationStatus, EvaluationLease};
use floatctf_awd::awdp_phase::AwdpPhase;
use floatctf_awd::awdp_training::{plan_set_phase, writeup_action, PhaseChange, SetPhaseForm};
use floatctf_awd::cidr::Ipv4Cidr;
use floatctf_awd::command::{
    conntrack_flush_args, filter_snapshot, iptables_restore_args, iptables_save_args, wg_add_peer_args,
    wg_remove_peer_args, wg_set_interface_args, CommandRunner, RecordingCommandRunner,
};
use floatctf_awd::error::{AwdError, AwdpError};
use floatctf_awd::event_network::{
    automatic_allocation_gate, manual_allocation_gate, plan_automatic_allocation, plan_manual_allocation,
    reallocation_gate, ManualNetworkRequest,
};
use floatctf_awd::practice_judge::{
    apply_settings_patch, practice_judge_endpoint, settings_patch_of, validate_practice_judge_patch,
    PracticeJudgePatchRequest, PracticeJudgeSettings,
};

#[test]
fn recording_runner_keeps_commands_in_order() {
    let mut r = RecordingCommandRunner::new();
    assert!(r.recorded().is_empty());
    let out = r.run("wg", &wg_set_interface_args("wg0", 51820)).unwrap();
    assert_eq!(out.exit_code, 0);
    r.run("conntrack", &conntrack_flush_args("10.0.0.0/16")).unwrap();
    let rec = r.recorded();
    assert_eq!(rec.len(), 2);
    assert_eq!(rec[0].0, "wg");
    assert_eq!(rec[0].1, vec!["set", "wg0", "private-key", "/dev/stdin", "listen-port", "51820"]);
    assert_eq!(rec[1].1, vec!["-D", "-s", "10.0.0.0/16"]);
}

#[test]
fn command_argument_lists() {
    assert_eq!(wg_add_peer_args("wg0", "PUB", "10.1.0.2/32"), vec!["set", "wg0", "peer", "PUB", "allowed-ips", "10.1.0.2/32"]);
    assert_eq!(wg_remove_peer_args("wg0", "PUB"), vec!["set", "wg0", "peer", "PUB", "remove"]);
    assert_eq!(iptables_restore_args("/tmp/rules"), vec!["--noflush", "/tmp/rules"]);
    assert_eq!(iptables_save_args(), vec!["-t", "filter"]);
}

#[test]
fn snapshot_keeps_chain_lines() {
    let out = "*filter\n:FCTF-AWD - [0:0]\n-A FORWARD -j FCTF-AWD\n-A INPUT -j ACCEPT\nCOMMIT\n";
    assert_eq!(filter_snapshot(out, "FCTF-"), ":FCTF-AWD - [0:0]\n-A FORWARD -j FCTF-AWD");
    assert_eq!(filter_snapshot(out, "nothing"), "");
}

fn pool(s: &str, e: u8, t: u8) -> NetworkPool {
    NetworkPool::new(Ipv4Cidr::parse(s).unwrap(), e, t).unwrap()
}

#[test]
fn automatic_allocation_takes_first_free() {
    let gb = pool("10.100.0.0/14", 16, 24);
    let wg = pool("10.200.0.0/15", 16, 24);
    let active = vec![
        NetworkAllocation { event_id: 1, cidr: "10.100.0.0/16".to_string() },
        NetworkAllocation { event_id: 1, cidr: "10.200.0.0/16".to_string() },
    ];
    let range = WireGuardPortRange::new(51820, 51830).unwrap();
    let (g, w, p) = plan_automatic_allocation(&gb, &wg, &active, &[51820], range).unwrap();
    assert_eq!(g.to_string(), "10.101.0.0/16");
    assert_eq!(w.to_string(), "10.201.0.0/16");
    assert_eq!(p, 51821);
    let full = vec![NetworkAllocation { event_id: 1, cidr: "10.200.0.0/15".to_string() }];
    let range = WireGuardPortRange::new(51820, 51830).unwrap();
    assert!(matches!(plan_automatic_allocation(&gb, &wg, &full, &[], range), Err(AwdError::PoolExhausted(_))));
}

#[test]
fn allocation_gates() {
    assert_eq!(automatic_allocation_gate(None).unwrap(), false);
    assert_eq!(automatic_allocation_gate(Some(false)).unwrap(), true);
    assert!(matches!(automatic_allocation_gate(Some(true)), Err(AwdError::NetworkLocked(_))));
    assert!(matches!(manual_allocation_gate(true), Err(AwdError::Conflict(_))));
    assert!(manual_allocation_gate(false).is_ok());
    assert!(matches!(reallocation_gate(true), Err(AwdError::NetworkLocked(_))));
}

fn manual(gb: &str, wg: &str, port: Option<i32>) -> ManualNetworkRequest {
    ManualNetworkRequest { gamebox_cidr: gb.to_string(), wireguard_cidr: wg.to_string(), wireguard_listen_port: port }
}

#[test]
fn manual_allocation_checks() {
    let active = vec![NetworkAllocation { event_id: 1, cidr: "10.100.0.0/16".to_string() }];
    let (g, w, p) = plan_manual_allocation(&manual("10.50.0.0/16", "10.51.0.0/16", Some(51825)), &active, &[], 24, 51820, 51830).unwrap();
    assert_eq!((g.to_string().as_str(), w.to_string().as_str(), p), ("10.50.0.0/16", "10.51.0.0/16", 51825));
    let (_, _, p) = plan_manual_allocation(&manual("10.50.0.0/16", "10.51.0.0/16", None), &active, &[51820], 24, 51820, 51830).unwrap();
    assert_eq!(p, 51821);
    assert!(matches!(
        plan_manual_allocation(&manual("10.50.0.0/16", "10.50.1.0/24", None), &active, &[], 24, 51820, 51830),
        Err(AwdError::NetworkOverlap(_))
    ));
    match plan_manual_allocation(&manual("10.100.5.0/24", "10.51.0.0/16", None), &active, &[], 24, 51820, 51830) {
        Err(AwdError::NetworkOverlap(m)) => {
            assert_eq!(m, "AWD_NETWORK_OVERLAP: 与 Event 00000000-0000-0000-0000-000000000001 的 10.100.0.0/16 冲突")
        },
        other => panic!("unexpected {other:?}"),
    }
    assert!(matches!(
        plan_manual_allocation(&manual("10.50.0.0/25", "10.51.0.0/16", None), &active, &[], 24, 51820, 51830),
        Err(AwdError::Validation(_))
    ));
    assert!(matches!(
        plan_manual_allocation(&manual("10.50.0.0/16", "10.51.0.0/16", Some(40000)), &active, &[], 24, 51820, 51830),
        Err(AwdError::Validation(_))
    ));
    match plan_manual_allocation(&manual("10.50.0.0/16", "10.51.0.0/16", Some(51822)), &active, &[51822], 24, 51820, 51830) {
        Err(AwdError::Conflict(m)) => assert_eq!(m, "wg port 51822 已被其他 Event 占用"),
        other => panic!("unexpected {other:?}"),
    }
    assert!(matches!(
        plan_manual_allocation(&manual("nope", "10.51.0.0/16", None), &active, &[], 24, 51820, 51830),
        Err(AwdError::Validation(_))
    ));
}

#[test]
fn practice_judge_patch_rules() {
    let ok = PracticeJudgePatchRequest {
        enabled: Some(true),
        judge_server_url: Some("https://judge".to_string()),
        interval_secs: Some(60),
        flag_path: Some("/flag".to_string()),
    };
    assert!(validate_practice_judge_patch(&ok).is_ok());
    let bad_interval = PracticeJudgePatchRequest { enabled: None, judge_server_url: None, interval_secs: Some(5), flag_path: None };
    assert_eq!(validate_practice_judge_patch(&bad_interval).unwrap_err(), "interval_secs 必须在 10~86400 之间");
    let bad_path = PracticeJudgePatchRequest { enabled: None, judge_server_url: None, interval_secs: None, flag_path: Some("flag".to_string()) };
    assert_eq!(validate_practice_judge_patch(&bad_path).unwrap_err(), "flag_path 必须以 / 开头且不超过 200 字符");
    let bad_url = PracticeJudgePatchRequest { enabled: None, judge_server_url: Some("ftp://x".to_string()), interval_secs: None, flag_path: None };
    assert_eq!(validate_practice_judge_patch(&bad_url).unwrap_err(), "judge_server_url 必须是 http(s):// 地址或留空");
    let blank_url = PracticeJudgePatchRequest { enabled: None, judge_server_url: Some("  ".to_string()), interval_secs: None, flag_path: None };
    assert!(validate_practice_judge_patch(&blank_url).is_ok());
}

#[test]
fn practice_judge_patch_applies_present_fields() {
    let base = PracticeJudgeSettings {
        enabled: false,
        judge_server_url: String::new(),
        interval_secs: 300,
        flag_path: "/flag".to_string(),
    };
    let req = PracticeJudgePatchRequest { enabled: Some(true), judge_server_url: None, interval_secs: Some(60), flag_path: None };
    let next = apply_settings_patch(&base, &settings_patch_of(req));
    assert!(next.enabled);
    assert_eq!(next.interval_secs, 60);
    assert_eq!(next.flag_path, "/flag");
    assert_eq!(next.judge_server_url, "");
}

#[test]
fn practice_judge_endpoints() {
    let d = practice_judge_endpoint("judge.internal");
    assert_eq!(d.base_url, "http://judge.internal:80");
    assert_eq!(d.flag_url, "http://judge.internal:80/flag");
    assert_eq!(d.scope, "gamebox_internal");
}

#[test]
fn manual_phase_control() {
    let fix = SetPhaseForm { phase: "fix".to_string() };
    let brk = SetPhaseForm { phase: "break".to_string() };
    assert_eq!(plan_set_phase(true, &fix, AwdpPhase::Break).unwrap(), PhaseChange::BreakToFix);
    assert_eq!(plan_set_phase(true, &fix, AwdpPhase::Fix).unwrap(), PhaseChange::Unchanged);
    assert_eq!(plan_set_phase(true, &brk, AwdpPhase::Fix).unwrap(), PhaseChange::FixToBreak);
    match plan_set_phase(true, &fix, AwdpPhase::Pending) {
        Err(AwdpError::InvalidState(m)) => assert_eq!(m, "当前阶段 Pending 不能直接进入 Fix"),
        other => panic!("unexpected {other:?}"),
    }
    assert!(matches!(plan_set_phase(false, &fix, AwdpPhase::Break), Err(AwdpError::InvalidState(_))));
    let other = SetPhaseForm { phase: "ended".to_string() };
    match plan_set_phase(true, &other, AwdpPhase::Break) {
        Err(AwdpError::Validation(m)) => assert_eq!(m, "phase 只能是 break 或 fix（got \"ended\"）"),
        other => panic!("unexpected {other:?}"),
    }
    let quoted = SetPhaseForm { phase: "a\"b".to_string() };
    match plan_set_phase(true, &quoted, AwdpPhase::Break) {
        Err(AwdpError::Validation(m)) => assert_eq!(m, "phase 只能是 break 或 fix（got \"a\\\"b\"）"),
        other => panic!("unexpected {other:?}"),
    }
    assert_eq!(writeup_action(true), "UPDATE");
    assert_eq!(writeup_action(false), "CREATE");
}

#[test]
fn claimed_job_carries_token_and_attempt() {
    let mut row = EvaluationLease {
        status: AwdpEvaluationStatus::Pending,
        attempt_count: 2,
        claimed_by: None,
        lease_token_hash: None,
        claimed_at: None,
        heartbeat_at: None,
        lease_expires_at: None,
        started_at: None,
        finished_at: None,
        updated_at: 0,
        healthcheck_result: None,
        judge_result: None,
        exploit_result: None,
        stdout_limited: None,
        stderr_limited: None,
    };
    let job = claim_job(9, &mut row, "w", 10, 100);
    assert_eq!(job.evaluation_id, 9);
    assert_eq!(job.attempt, 3);
    assert_eq!(job.lease_token.len(), 64);
    assert_eq!(row.lease_token_hash, Some(lease_token_hash(&job.lease_token)));
    assert_eq!(validate_claim_request(" ", 3).unwrap_err(), "worker_id is required");
    assert_eq!(validate_claim_request("w", 65).unwrap_err(), "capacity must be in [1, 64]");
    assert!(validate_claim_request("w", 64).is_ok());
}
