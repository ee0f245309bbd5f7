use floatctf_awd::awd_network::{allocate_port, first_free_event_subnet, NetworkAllocation, NetworkPool, WireGuardPortRange};
use floatctf_awd::awdp_lease::{
    claim, finish_with_lease, heartbeat, lease_token_hash, new_lease_token, recover_stale_running, release_or_fail,
    truncate_str, AwdpEvaluationStatus, EvaluationLease, FinishOutcome, HeartbeatOutcome, JobResult,
};
use floatctf_awd::cidr::Ipv4Cidr;
use floatctf_awd::error::AwdError;
use floatctf_awd::lines::{dedup_lines, split_lines, trim};

fn pending_row() -> EvaluationLease {
    EvaluationLease {
        status: AwdpEvaluationStatus::Pending,
        attempt_count: 0,
        claimed_by: None,
        lease_token_hash: None,
        claimed_at: None,
        heartbeat_at: None,
        lease_expires_at: None,
        started_at: None,
        finished_at: None,
        updated_at: 0,
        healthcheck_result: None,
        judge_result: None,
        exploit_result: None,
        stdout_limited: None,
        stderr_limited: None,
    }
}

fn result(code: u8) -> JobResult {
    JobResult {
        status: AwdpEvaluationStatus::Outcome(code),
        healthcheck_result: Some("ok".to_string()),
        judge_result: None,
        exploit_result: None,
        stdout_limited: None,
        stderr_limited: None,
    }
}

#[test]
fn claim_heartbeat_finish_cycle() {
    let mut row = pending_row();
    let attempt = claim(&mut row, "w1", "tok", 30, 100);
    assert_eq!(attempt, 1);
    assert_eq!(row.status, AwdpEvaluationStatus::Running);
    assert_eq!(row.lease_expires_at, Some(130));
    assert_eq!(row.lease_token_hash, Some(lease_token_hash("tok")));
    assert_eq!(heartbeat(&mut row, "w1", "tok", 30, 120), HeartbeatOutcome::Extended);
    assert_eq!(row.lease_expires_at, Some(150));
    assert_eq!(heartbeat(&mut row, "w2", "tok", 30, 121), HeartbeatOutcome::NoLease);
    assert_eq!(finish_with_lease(&mut row, "w1", "tok", 1, result(3), 140), FinishOutcome::Written);
    assert_eq!(row.status, AwdpEvaluationStatus::Outcome(3));
    assert_eq!(row.claimed_by, None);
    assert_eq!(row.finished_at, Some(140));
}

#[test]
fn superseded_attempt_is_rejected() {
    let mut row = pending_row();
    claim(&mut row, "w1", "old", 30, 0);
    assert!(recover_stale_running(&mut row, 3, 100));
    assert_eq!(row.status, AwdpEvaluationStatus::Pending);
    claim(&mut row, "w2", "new", 30, 101);
    assert_eq!(finish_with_lease(&mut row, "w1", "old", 1, result(1), 102), FinishOutcome::StaleRejected);
    assert_eq!(row.status, AwdpEvaluationStatus::Running);
    assert_eq!(finish_with_lease(&mut row, "w2", "new", 2, result(2), 103), FinishOutcome::Written);
}

#[test]
fn stale_lease_gives_up_at_max_attempts() {
    let mut row = pending_row();
    claim(&mut row, "w", "t", 10, 0);
    assert!(!recover_stale_running(&mut row, 1, 5));
    assert!(recover_stale_running(&mut row, 1, 11));
    assert_eq!(row.status, AwdpEvaluationStatus::PlatformError);
    assert_eq!(row.finished_at, Some(11));
}

#[test]
fn infrastructure_failure_releases_or_fails() {
    let mut row = pending_row();
    claim(&mut row, "w", "t", 10, 0);
    assert_eq!(release_or_fail(&mut row, "w", "t", 1, 3, "docker down", 5), FinishOutcome::Written);
    assert_eq!(row.status, AwdpEvaluationStatus::Pending);
    claim(&mut row, "w", "t2", 10, 6);
    assert_eq!(release_or_fail(&mut row, "w", "bad", 2, 2, "x", 7), FinishOutcome::StaleRejected);
    assert_eq!(release_or_fail(&mut row, "w", "t2", 2, 2, "x", 7), FinishOutcome::Written);
    assert_eq!(row.status, AwdpEvaluationStatus::PlatformError);
}

#[test]
fn lease_tokens_are_hex() {
    let t = new_lease_token();
    assert_eq!(t.len(), 64);
    assert!(t.bytes().all(|b| b.is_ascii_hexdigit()));
    assert_ne!(new_lease_token(), t);
    assert_eq!(lease_token_hash("abc"), "ba7816bf8f01cfea414140de5dae2223b00361a396177a9cb410ff61f20015ad");
}

#[test]
fn truncation_marks_full_length() {
    assert_eq!(truncate_str("hello", 10), "hello");
    assert_eq!(truncate_str("hello world", 5), "hello…(11 bytes)");
}

#[test]
fn event_pool_first_free_block() {
    let pool = NetworkPool::new(Ipv4Cidr::parse("10.100.0.0/14").unwrap(), 16, 24).unwrap();
    assert_eq!(pool.event_capacity(), 4);
    let active = vec![NetworkAllocation { event_id: 1, cidr: "10.100.0.0/16".to_string() }];
    assert_eq!(first_free_event_subnet(&pool, &active, "gamebox").unwrap().to_string(), "10.101.0.0/16");
    let all: Vec<NetworkAllocation> = vec![NetworkAllocation { event_id: 1, cidr: "10.100.0.0/14".to_string() }];
    match first_free_event_subnet(&pool, &all, "gamebox") {
        Err(AwdError::PoolExhausted(m)) => {
            assert_eq!(m, "AWD_GAMEBOX_POOL_EXHAUSTED: gamebox 地址池 10.100.0.0/14 已无空闲 event 子网（容量 4）")
        },
        other => panic!("unexpected {other:?}"),
    }
    assert!(matches!(NetworkPool::new(Ipv4Cidr::parse("10.0.0.0/16").unwrap(), 8, 24), Err(AwdError::Validation(_))));
}

#[test]
fn wireguard_port_lowest_free() {
    let range = WireGuardPortRange::new(51820, 51822).unwrap();
    assert_eq!(allocate_port(WireGuardPortRange::new(51820, 51822).unwrap(), &[51820, 51821]).unwrap(), 51822);
    match allocate_port(range, &[51820, 51821, 51822]) {
        Err(AwdError::PoolExhausted(m)) => assert_eq!(m, "AWD_WG_PORT_POOL_EXHAUSTED: WG 端口池 51820-51822 已无空闲端口"),
        other => panic!("unexpected {other:?}"),
    }
    assert!(WireGuardPortRange::new(10, 5).is_err());
}

#[test]
fn lines_split_trim_dedup() {
    assert_eq!(split_lines("a\r\nb\n\nc"), vec!["a", "b", "", "c"]);
    assert_eq!(split_lines("x\n"), vec!["x"]);
    assert_eq!(trim("  hi \t"), "hi");
    let v = dedup_lines(vec!["a".to_string(), "b".to_string(), "a".to_string()]);
    assert_eq!(v, vec!["a", "b"]);
}
