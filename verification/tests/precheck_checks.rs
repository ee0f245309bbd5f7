use floatctf_awd::awd_event::AwdEventStatus;
use floatctf_awd::error::AwdError;
use floatctf_awd::precheck::{
    compute_revision, evaluate_precheck, firewall_structure_findings, plan_precheck_entry, precheck_outcome,
    revision_matches, ssh_probe_enabled, static_precheck_findings, validate_event_network, EventNetworkRecord,
    InetAddr, PrecheckStatus,
};
use sha2::Digest;

#[test]
fn evaluate_precheck_passes_on_empty_errors() {
    let empty: Vec<(String, String)> = Vec::new();
    assert!(evaluate_precheck(&empty));
}

#[test]
fn evaluate_precheck_fails_on_any_error() {
    let errors = vec![("docker".to_string(), "list failed".to_string())];
    assert!(!evaluate_precheck(&errors));
}

#[test]
fn revision_matches_only_on_equal_revision() {
    assert!(revision_matches(Some(7), 7));
    assert!(!revision_matches(None, 7));
    assert!(!revision_matches(Some(6), 7));
    assert!(!revision_matches(Some(8), 7));
}

#[test]
fn ssh_probe_only_when_env_is_one() {
    assert!(ssh_probe_enabled(Some("1")));
    assert!(!ssh_probe_enabled(Some("0")));
    assert!(!ssh_probe_enabled(None));
    assert!(!ssh_probe_enabled(Some("yes")));
}

#[test]
fn noop_firewall_structure_never_passes() {
    // The Noop runtime observes no table at all.
    let errors = firewall_structure_findings(false, "", None, 0);
    assert!(!errors.is_empty());
    assert!(errors.iter().any(|(k, _)| k == "firewall"));
}

fn inet(a: [u8; 4], p: u8) -> InetAddr {
    InetAddr { ip: u32::from_be_bytes(a), prefix: p }
}

fn sound_network() -> EventNetworkRecord {
    EventNetworkRecord {
        gamebox_cidr: "10.40.0.0/16".to_string(),
        wireguard_cidr: "10.41.0.0/16".to_string(),
        infrastructure_subnet: "10.40.0.0/24".to_string(),
        flagserver_ip: inet([10, 40, 0, 2], 32),
        judgeserver_ip: inet([10, 40, 0, 3], 32),
        wireguard_interface_name: "wg-awd".to_string(),
    }
}

#[test]
fn event_network_sound_passes() {
    assert!(validate_event_network(&sound_network()).is_ok());
}

#[test]
fn event_network_faults_in_order() {
    let mut n = sound_network();
    n.gamebox_cidr = "bogus".to_string();
    assert_eq!(validate_event_network(&n).unwrap_err(), "Invalid gamebox_cidr: invalid CIDR: bogus");

    let mut n = sound_network();
    n.wireguard_cidr = "10.40.5.0/24".to_string();
    assert_eq!(validate_event_network(&n).unwrap_err(), "gamebox_cidr and wireguard_cidr overlap");

    let mut n = sound_network();
    n.gamebox_cidr = "10.40.0.0/20".to_string();
    assert_eq!(validate_event_network(&n).unwrap_err(), "gamebox_cidr must be /16 or smaller, got /20");

    let mut n = sound_network();
    n.infrastructure_subnet = "10.99.0.0/24".to_string();
    assert_eq!(
        validate_event_network(&n).unwrap_err(),
        "infrastructure_subnet 10.99.0.0/24 不在 gamebox_cidr 10.40.0.0/16 内"
    );

    let mut n = sound_network();
    n.flagserver_ip = inet([10, 40, 9, 2], 32);
    assert_eq!(
        validate_event_network(&n).unwrap_err(),
        "flagserver_ip 10.40.9.2/32 不在 infrastructure_subnet 10.40.0.0/24 内"
    );

    let mut n = sound_network();
    n.judgeserver_ip = n.flagserver_ip;
    assert_eq!(validate_event_network(&n).unwrap_err(), "flagserver_ip and judgeserver_ip must be different");

    let mut n = sound_network();
    n.wireguard_interface_name = "wg-awd-0123456789".to_string();
    assert_eq!(validate_event_network(&n).unwrap_err(), "wireguard_interface_name too long: 17 (max 15)");
}

#[test]
fn revision_is_sha256_of_the_addressing() {
    let n = sound_network();
    let mut h = sha2::Sha256::new();
    h.update(b"10.40.0.0/16");
    h.update(b"10.41.0.0/16");
    h.update(b"wg-awd");
    h.update(b"10.40.0.0/24");
    h.update(b"10.40.0.2");
    h.update(b"10.40.0.3");
    let expected = hex::encode(h.finalize());
    assert_eq!(compute_revision(&n), expected);
    assert_eq!(compute_revision(&n).len(), 64);
}

#[test]
fn precheck_entry_transitions() {
    assert_eq!(plan_precheck_entry(AwdEventStatus::Prechecking).unwrap(), vec![]);
    assert_eq!(
        plan_precheck_entry(AwdEventStatus::Configuring).unwrap(),
        vec![(AwdEventStatus::Configuring, AwdEventStatus::Prechecking)]
    );
    assert_eq!(
        plan_precheck_entry(AwdEventStatus::Deployed).unwrap(),
        vec![(AwdEventStatus::Deployed, AwdEventStatus::Prechecking)]
    );
    assert_eq!(
        plan_precheck_entry(AwdEventStatus::Verified).unwrap(),
        vec![
            (AwdEventStatus::Verified, AwdEventStatus::Configuring),
            (AwdEventStatus::Configuring, AwdEventStatus::Prechecking)
        ]
    );
    match plan_precheck_entry(AwdEventStatus::Running) {
        Err(AwdError::InvalidState(m)) => assert_eq!(m, "Cannot precheck in Running status"),
        other => panic!("unexpected {other:?}"),
    }
}

#[test]
fn precheck_verdict_leads_to_status() {
    let none: Vec<(String, String)> = vec![];
    assert_eq!(precheck_outcome(&none), (PrecheckStatus::Passed, AwdEventStatus::Verified));
    let some = vec![("teams".to_string(), "x".to_string())];
    assert_eq!(precheck_outcome(&some), (PrecheckStatus::Failed, AwdEventStatus::VerificationFailed));
}

#[test]
fn static_findings_in_order() {
    let v = static_precheck_findings(&Err("bad".to_string()), 0, 0, false);
    let keys: Vec<&str> = v.iter().map(|(k, _)| k.as_str()).collect();
    assert_eq!(keys, vec!["config", "teams", "gameboxes", "docker"]);
    assert_eq!(v[1].1, "No teams registered for this event");
    assert!(static_precheck_findings(&Ok(()), 2, 1, true).is_empty());
}

#[test]
fn firewall_structure_checks_chain_hook_and_revision() {
    let raw = "table inet floatctf_awd {\n chain awd_forward {\n  type filter hook forward priority 0;\n }\n}";
    assert!(firewall_structure_findings(true, raw, Some(3), 3).is_empty());
    let v = firewall_structure_findings(true, "table inet floatctf_awd {}", Some(2), 3);
    assert_eq!(v.len(), 3);
    assert_eq!(v[2].1, "revision 不匹配: observed=Some(2) desired=3");
    let v = firewall_structure_findings(true, raw, None, 3);
    assert_eq!(v[0].1, "revision 不匹配: observed=None desired=3");
}

use floatctf_awd::precheck_probe::{
    check_containers, check_network_matrix, check_wireguard, ssh_finding, ssh_probe_args, ssh_probe_skip, Inspect,
    InstanceProbe, LiveContainer, SshStep,
};

fn live(name: &str, id: &str, running: bool) -> LiveContainer {
    LiveContainer {
        container_name: name.to_string(),
        container_id: id.to_string(),
        running,
        status: if running { "running".to_string() } else { "exited".to_string() },
    }
}

#[test]
fn container_check_reports_services_and_instances() {
    let l = Ok(vec![
        live("fctf-flagserver-01234567", "f1", true),
        live("fctf-judgeserver-01234567", "j1", false),
        live("box-a", "a-old", true),
    ]);
    let insts = vec![
        InstanceProbe { container_name: "box-a".to_string(), probe: Some(("a1".to_string(), Inspect::Failed("gone".to_string()))) },
        InstanceProbe { container_name: "box-b".to_string(), probe: None },
        InstanceProbe { container_name: "box-c".to_string(), probe: Some(("c1".to_string(), Inspect::Running("c1".to_string()))) },
        InstanceProbe { container_name: "box-d".to_string(), probe: Some(("d1".to_string(), Inspect::Failed("boom".to_string()))) },
    ];
    let r = check_containers(&l, &insts);
    assert_eq!(
        r.notes,
        vec![
            ("flagserver_container".to_string(), "running: f1".to_string()),
            ("gamebox:box-a".to_string(), "running (by name): a-old".to_string()),
            ("gamebox:box-c".to_string(), "running: c1".to_string()),
        ]
    );
    assert_eq!(
        r.errors,
        vec![
            ("judgeserver_container".to_string(), "container fctf-judgeserver-01234567 not running (status: exited)".to_string()),
            ("gamebox".to_string(), "box-b: no current_container_id in DB".to_string()),
            ("gamebox".to_string(), "box-d: inspect_container(d1) failed: boom".to_string()),
        ]
    );
}

#[test]
fn container_check_without_listing_or_instances() {
    let r = check_containers(&Err("docker down".to_string()), &[]);
    assert_eq!(r.errors, vec![("docker".to_string(), "list_event_containers: docker down".to_string())]);
    assert!(r.notes.is_empty());
    let r = check_containers(&Ok(vec![]), &[]);
    assert_eq!(r.errors.len(), 2);
    assert_eq!(r.errors[0].1, "no container matching 'flagserver'");
    assert_eq!(r.notes, vec![("gamebox".to_string(), "no GameBox instances".to_string())]);
}

#[test]
fn ssh_probe_gate_and_findings() {
    assert!(ssh_probe_skip(None, &Ok(3), 2).unwrap().starts_with("SSH 探测未启用"));
    assert_eq!(ssh_probe_skip(Some("1"), &Ok(0), 2).unwrap(), "无容器，跳过 SSH 探测");
    assert_eq!(ssh_probe_skip(Some("1"), &Err("x".to_string()), 2).unwrap(), "Docker 不可达，跳过 SSH 探测：x");
    assert_eq!(ssh_probe_skip(Some("1"), &Ok(3), 2), None);
    assert_eq!(
        ssh_probe_args("10.0.1.2"),
        vec!["-o", "BatchMode=yes", "-o", "ConnectTimeout=3", "-o", "StrictHostKeyChecking=no", "root@10.0.1.2", "true"]
    );
    assert_eq!(
        ssh_finding("box", "team", "10.0.1.2", &SshStep::Exited(0, String::new())),
        (false, "ssh:box".to_string(), "10.0.1.2: ssh 可达".to_string())
    );
    assert_eq!(
        ssh_finding("box", "team", "10.0.1.2", &SshStep::Exited(255, " refused \n".to_string())),
        (true, "ssh".to_string(), "box (10.0.1.2): ssh 探测失败 (exit 255): refused".to_string())
    );
    assert_eq!(ssh_finding("box", "t7", "ip", &SshStep::NoNetwork).2, "box: no awd_team_networks row for team t7");
}

#[test]
fn wireguard_and_matrix_reports() {
    let r = check_wireguard(&Ok((false, vec!["iface wg0".to_string()])), &Ok(3));
    assert_eq!(r.notes, vec![("wireguard".to_string(), "iface wg0".to_string()), ("wireguard".to_string(), "active_peers=3".to_string())]);
    assert_eq!(r.errors.len(), 1);
    let r = check_wireguard(&Err("no host".to_string()), &Ok(3));
    assert_eq!(r.errors, vec![("wireguard".to_string(), "inspect failed: no host".to_string())]);
    let r = check_wireguard(&Ok((true, vec![])), &Ok(0));
    assert!(r.errors.is_empty());
    let r = check_network_matrix(&Ok((false, vec!["a".to_string(), "b".to_string()])), 4);
    assert_eq!(r.errors, vec![("network_matrix".to_string(), "verify 失败: a; b".to_string())]);
    let r = check_network_matrix(&Ok((true, vec![])), 4);
    assert_eq!(r.notes, vec![("network_matrix".to_string(), "desired-state verify 通过（revision 4）".to_string())]);
}

#[test]
fn noop_network_matrix_never_verifies() {
    // The Noop runtime never verifies the desired state.
    let r = check_network_matrix(&Ok((false, vec![])), 1);
    assert!(!r.errors.is_empty());
    assert!(r.errors.iter().any(|(k, _)| k == "network_matrix"));
}

#[test]
fn ssh_finding_writes_negative_exit_codes_in_decimal() {
    assert_eq!(
        ssh_finding("box", "team", "10.0.1.2", &SshStep::Exited(-1, "killed".to_string())).2,
        "box (10.0.1.2): ssh 探测失败 (exit -1): killed"
    );
    assert_eq!(
        ssh_finding("box", "team", "10.0.1.2", &SshStep::Exited(1024, String::new())).2,
        "box (10.0.1.2): ssh 探测失败 (exit 1024): "
    );
}

use floatctf_awd::precheck_probe::CheckReport;
use floatctf_awd::precheck_run::{finish_precheck, PrecheckProbes};

fn report(errors: &[(&str, &str)], notes: &[(&str, &str)]) -> CheckReport {
    CheckReport {
        errors: errors.iter().map(|(a, b)| (a.to_string(), b.to_string())).collect(),
        notes: notes.iter().map(|(a, b)| (a.to_string(), b.to_string())).collect(),
    }
}

fn clean_probes() -> PrecheckProbes {
    PrecheckProbes {
        instance_lookup: Ok(()),
        containers: report(&[], &[("flagserver_container", "running: c1")]),
        ssh: report(&[], &[("ssh", "skipped")]),
        wireguard: report(&[], &[]),
        firewall: Ok((true, "chain awd_forward { hook forward }".to_string(), Some(7))),
        desired_revision: 7,
        matrix: Ok(report(&[], &[("network_matrix", "ok")])),
    }
}

#[test]
fn precheck_run_passes_and_records_the_revision() {
    let net = Some(sound_network());
    let v = finish_precheck(AwdEventStatus::Configuring, &net, 2, 1, true, &clean_probes()).unwrap();
    assert!(v.errors.is_empty());
    assert_eq!(v.notes.len(), 3);
    assert_eq!(v.notes[2].0, "network_matrix");
    assert_eq!((v.status, v.event_status), (PrecheckStatus::Passed, AwdEventStatus::Verified));
    assert_eq!(v.verified_revision, Some(compute_revision(&sound_network())));
}

#[test]
fn precheck_run_fails_on_a_stale_firewall_revision() {
    let net = Some(sound_network());
    let mut p = clean_probes();
    p.firewall = Ok((true, "chain awd_forward { hook forward }".to_string(), Some(6)));
    p.instance_lookup = Err("db down".to_string());
    let v = finish_precheck(AwdEventStatus::Prechecking, &net, 0, 1, true, &p).unwrap();
    assert_eq!(
        v.errors,
        vec![
            ("teams".to_string(), "No teams registered for this event".to_string()),
            ("gamebox".to_string(), "find_instances_by_event: db down".to_string()),
            ("firewall".to_string(), "revision 不匹配: observed=Some(6) desired=7".to_string()),
        ]
    );
    assert_eq!((v.status, v.event_status), (PrecheckStatus::Failed, AwdEventStatus::VerificationFailed));
    assert_eq!(v.verified_revision, None);
}

#[test]
fn precheck_run_reports_inspection_and_matrix_failures() {
    let net = Some(sound_network());
    let mut p = clean_probes();
    p.firewall = Err("nft missing".to_string());
    p.matrix = Err("no settings".to_string());
    let v = finish_precheck(AwdEventStatus::Configuring, &net, 1, 1, true, &p).unwrap();
    assert_eq!(v.errors[0], ("firewall".to_string(), "inspect failed: nft missing".to_string()));
    assert_eq!(v.errors[1], ("network_matrix".to_string(), "build_desired_state: no settings".to_string()));
    assert_eq!(v.notes.len(), 2);
}

#[test]
fn precheck_run_gates_network_and_status() {
    match finish_precheck(AwdEventStatus::Configuring, &None, 1, 1, true, &clean_probes()) {
        Err(AwdError::NotFound(m)) => assert_eq!(m, "event network not allocated；请先在赛事网络页分配"),
        _ => panic!("expected NotFound"),
    }
    assert!(matches!(
        finish_precheck(AwdEventStatus::Running, &Some(sound_network()), 1, 1, true, &clean_probes()),
        Err(AwdError::InvalidState(_))
    ));
}
