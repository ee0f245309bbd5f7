use floatctf_awd::awd_event::{
    assert_network_editable, plan_deploy, plan_finish, plan_pause, plan_resume, plan_start, status_after_failed_deploy,
    AwdEventStatus, AwdPhase,
};
use floatctf_awd::cidr::{parse_ipv4, Ipv4Cidr};
use floatctf_awd::deploy::{
    docker_network_name, gamebox_container_name, gamebox_extra_hosts, infra_container_env, infra_container_name,
    infra_needs_create, instance_needs_create, plan_team_subnets, random_password, require_token_parts,
    reuse_docker_network, wireguard_server_address, PASSWORD_CHARSET,
};
use floatctf_awd::error::AwdError;
use floatctf_awd::gamebox::{effective_image_ref_from_revision, GameboxRevision, BUILD_STATUS_READY};
use floatctf_awd::judge::GameboxStatus;
use floatctf_awd::reset::{
    authorize_reset, next_runtime_generation, protection_until, reset_is_free, reset_penalty_delta, reset_penalty_key,
    ResetActor,
};
use floatctf_awd::round::{
    is_duplicate_key, judge_timeout_delta, judge_timeout_key, plan_grace_end, plan_restore, plan_round_end,
    plan_round_start, seconds_after, RoundStatus, RoundStep, RoundTask,
};
use floatctf_awd::submission::{
    check_not_submitted, insert_error, is_duplicate_error, submission_result, victim_loss_delta,
};
use floatctf_awd::wireguard::{allocate_peer_ip, build_client_config};

const EVENT: u128 = 0x0123_4567_89ab_cdef_0123_4567_89ab_cdef;

fn dummy_revision(repo_digest: Option<&str>, image_id: Option<&str>, image_ref: Option<&str>, status: &str) -> GameboxRevision {
    GameboxRevision {
        id: 0,
        image_ref: image_ref.map(str::to_string),
        image_id: image_id.map(str::to_string),
        image_repo_digest: repo_digest.map(str::to_string),
        build_status: status.into(),
    }
}

#[test]
fn pinned_image_prefers_repo_digest() {
    let r = dummy_revision(
        Some("floatctf/gameboxes/ttt1@sha256:abc"),
        Some("sha256:local"),
        Some("floatctf/gameboxes/ttt1:1.0.0"),
        BUILD_STATUS_READY,
    );
    assert_eq!(effective_image_ref_from_revision(&r).unwrap(), "floatctf/gameboxes/ttt1@sha256:abc");
}

#[test]
fn pinned_image_falls_back_to_image_id_local_only() {
    let r = dummy_revision(None, Some("sha256:localid"), Some("floatctf/gameboxes/ttt1:1.0.0"), BUILD_STATUS_READY);
    assert_eq!(effective_image_ref_from_revision(&r).unwrap(), "sha256:localid");
}

#[test]
fn ready_without_pin_errors() {
    let r = dummy_revision(None, None, Some("floatctf/gameboxes/ttt1:1.0.0"), BUILD_STATUS_READY);
    assert!(effective_image_ref_from_revision(&r).is_err());
}

#[test]
fn unbuilt_revision_may_run_its_tag() {
    let r = dummy_revision(Some(""), None, Some("floatctf/gameboxes/ttt1:1.0.0"), "building");
    assert_eq!(effective_image_ref_from_revision(&r).unwrap(), "floatctf/gameboxes/ttt1:1.0.0");
    let none = dummy_revision(None, None, None, "building");
    match effective_image_ref_from_revision(&none) {
        Err(AwdError::Validation(m)) => {
            assert_eq!(m, "revision 00000000-0000-0000-0000-000000000000 has no usable image reference")
        },
        other => panic!("unexpected {other:?}"),
    }
}

#[test]
fn deploy_resource_names() {
    assert_eq!(infra_container_name("flagserver", EVENT), "fctf-flagserver-01234567");
    assert_eq!(gamebox_container_name(EVENT, 0xabcd << 112, 0x1234 << 112), "fctf-01234567-tabcd-team1234");
    assert_eq!(docker_network_name(None, EVENT), "fctf-awd-01234567");
    assert_eq!(docker_network_name(Some("custom"), EVENT), "custom");
}

#[test]
fn deploy_reuse_and_recreate_decisions() {
    assert!(reuse_docker_network(true, true, true));
    assert!(!reuse_docker_network(true, false, true));
    assert!(!infra_needs_create(true, true));
    assert!(infra_needs_create(true, false));
    assert!(infra_needs_create(false, true));
    assert!(!instance_needs_create(true, GameboxStatus::Creating));
    assert!(instance_needs_create(true, GameboxStatus::StartFailed));
    assert!(instance_needs_create(false, GameboxStatus::Ready));
    match require_token_parts("flagserver", true, false) {
        Err(AwdError::InvalidState(m)) => assert_eq!(m, "flagserver token not configured"),
        other => panic!("unexpected {other:?}"),
    }
    assert!(require_token_parts("judgeserver", true, true).is_ok());
}

#[test]
fn deploy_container_settings() {
    let env = infra_container_env(1, "tok");
    assert_eq!(
        env,
        vec![
            "EVENT_ID=00000000-0000-0000-0000-000000000001".to_string(),
            "INTERNAL_TOKEN=tok".to_string(),
            "LISTEN_ADDR=0.0.0.0:8080".to_string(),
        ]
    );
    let hosts = gamebox_extra_hosts(parse_ipv4("10.0.0.2").unwrap(), parse_ipv4("10.0.0.3").unwrap());
    assert_eq!(hosts, vec!["flagserver:10.0.0.2".to_string(), "judgeserver:10.0.0.3".to_string()]);
}

#[test]
fn team_subnets_follow_team_order() {
    let gb = Ipv4Cidr::parse("10.50.0.0/16").unwrap();
    let wg = Ipv4Cidr::parse("10.60.0.0/22").unwrap();
    let plan = plan_team_subnets(&gb, &wg, 3).unwrap();
    assert_eq!(plan.len(), 3);
    assert_eq!(plan[2].0.to_string(), "10.50.2.0/24");
    assert_eq!(plan[2].1.to_string(), "10.60.2.0/24");
    assert!(matches!(plan_team_subnets(&gb, &wg, 5), Err(AwdError::Network(_))));
    let narrow = Ipv4Cidr::parse("10.50.0.0/25").unwrap();
    assert!(matches!(plan_team_subnets(&narrow, &wg, 1), Err(AwdError::Validation(_))));
}

#[test]
fn passwords_use_the_charset() {
    let p = random_password(16);
    assert_eq!(p.chars().count(), 16);
    assert!(p.chars().all(|c| PASSWORD_CHARSET.contains(c)));
    assert_eq!(random_password(0), "");
}

#[test]
fn wireguard_server_address_from_cidr() {
    assert_eq!(wireguard_server_address("10.61.0.0/16"), "10.61.0.1/16");
    assert_eq!(wireguard_server_address("garbage"), "10.1.0.1/16");
    assert_eq!(wireguard_server_address("bad/20"), "10.1.0.1/20");
}

#[test]
fn client_config_exact_text() {
    let c = build_client_config("10.1.2.3", "PRIV", "PUB", "vpn.example", 51820, "10.0.0.0/16", "10.1.2.0/24");
    assert_eq!(
        c,
        "[Interface]\nAddress = 10.1.2.3/32\nPrivateKey = PRIV\n\n[Peer]\nPublicKey = PUB\nEndpoint = vpn.example:51820\nAllowedIPs = 10.0.0.0/16, 10.1.2.0/24\nPersistentKeepalive = 25\n"
    );
}

#[test]
fn peer_ips_allocated_in_order_until_exhausted() {
    let subnet = Ipv4Cidr::parse("10.1.2.0/30").unwrap();
    assert_eq!(allocate_peer_ip(&subnet, 0).unwrap(), ("10.1.2.1/32".to_string(), 1));
    assert_eq!(allocate_peer_ip(&subnet, 1).unwrap(), ("10.1.2.2/32".to_string(), 2));
    match allocate_peer_ip(&subnet, 2) {
        Err(AwdError::Network(m)) => assert_eq!(
            m,
            "WireGuard subnet Ipv4Cidr { network: 10.1.2.0, prefix_len: 30 } exhausted at host index 2"
        ),
        other => panic!("unexpected {other:?}"),
    }
}

#[test]
fn reset_gate_order_and_messages() {
    let player = ResetActor::Player { user_id: 7, team_id: 1 };
    let admin = ResetActor::Admin { admin_id: 9, charge_team: false };
    assert_eq!(authorize_reset(true, &player, 1, false, None, 100).unwrap(), 1);
    assert_eq!(authorize_reset(true, &admin, 5, false, Some(50), 100).unwrap(), 5);
    let forbidden = |r: Result<u128, AwdError>| match r {
        Err(AwdError::Forbidden(m)) => m,
        other => panic!("unexpected {other:?}"),
    };
    assert_eq!(forbidden(authorize_reset(false, &player, 1, false, None, 0)), "Event is not running");
    assert_eq!(forbidden(authorize_reset(true, &player, 2, false, None, 0)), "This GameBox does not belong to your team");
    assert_eq!(forbidden(authorize_reset(true, &player, 1, true, None, 0)), "Team is banned");
    assert_eq!(
        forbidden(authorize_reset(true, &player, 1, false, Some(101), 100)),
        "Reset is in protection window; wait for it to expire"
    );
    assert_eq!(player.requester_id(), 7);
    assert_eq!(admin.requester_id(), 9);
}

#[test]
fn reset_charging() {
    let player = ResetActor::Player { user_id: 7, team_id: 1 };
    assert!(reset_is_free(&player, 0, 1));
    assert!(!reset_is_free(&player, 1, 1));
    assert!(reset_is_free(&ResetActor::Admin { admin_id: 1, charge_team: false }, 5, 1));
    assert!(!reset_is_free(&ResetActor::Admin { admin_id: 1, charge_team: true }, 5, 1));
    assert_eq!(reset_penalty_delta(true, 50), None);
    assert_eq!(reset_penalty_delta(false, 50), Some(-50));
    assert_eq!(reset_penalty_key(3), "reset:00000000-0000-0000-0000-000000000003");
    assert_eq!(protection_until(10, 2), 2_000_000_010);
    assert_eq!(next_runtime_generation(4), 5);
}

#[test]
fn submission_scores() {
    let r = submission_result(100, 50, 30, true);
    assert_eq!((r.attack_score_delta, r.victim_loss_delta, r.first_bonus_delta, r.was_first_blood), (100, 50, 30, true));
    let r = submission_result(100, 50, 30, false);
    assert_eq!(r.first_bonus_delta, 0);
    assert_eq!(victim_loss_delta(50), -50);
    assert!(check_not_submitted(false).is_ok());
    assert!(matches!(check_not_submitted(true), Err(AwdError::Conflict(_))));
}

#[test]
fn insert_errors_classified() {
    assert!(is_duplicate_error("ERROR: duplicate key value violates unique constraint"));
    assert!(!is_duplicate_error("connection reset"));
    match insert_error("duplicate key".to_string(), "Attack already scored") {
        AwdError::Conflict(m) => assert_eq!(m, "Attack already scored"),
        other => panic!("unexpected {other:?}"),
    }
    match insert_error("timeout".to_string(), "x") {
        AwdError::Database(m) => assert_eq!(m, "timeout"),
        other => panic!("unexpected {other:?}"),
    }
}

#[test]
fn round_start_numbering_and_phase() {
    assert_eq!(plan_round_start(AwdEventStatus::Running, None, None).unwrap(), (1, AwdPhase::Hardening));
    assert_eq!(plan_round_start(AwdEventStatus::Running, None, Some(4)).unwrap(), (5, AwdPhase::Attack));
    assert_eq!(plan_round_start(AwdEventStatus::Running, Some(3), Some(9)).unwrap(), (3, AwdPhase::Attack));
    assert_eq!(plan_round_start(AwdEventStatus::Running, Some(0), Some(1)).unwrap(), (2, AwdPhase::Attack));
    assert!(matches!(plan_round_start(AwdEventStatus::Paused, None, None), Err(AwdError::InvalidState(_))));
}

#[test]
fn round_end_and_grace_steps() {
    assert_eq!(plan_round_end(1, 1, RoundStatus::Active).unwrap(), RoundStep::Advance);
    assert_eq!(plan_round_end(1, 1, RoundStatus::Grace).unwrap(), RoundStep::Skip);
    assert!(matches!(plan_round_end(2, 1, RoundStatus::Active), Err(AwdError::Forbidden(_))));
    assert_eq!(plan_grace_end(1, 1, RoundStatus::Grace, 4, AwdEventStatus::Running).unwrap(), (RoundStep::Advance, Some(5)));
    assert_eq!(plan_grace_end(1, 1, RoundStatus::Grace, 4, AwdEventStatus::Finished).unwrap(), (RoundStep::Advance, None));
    assert_eq!(plan_grace_end(1, 1, RoundStatus::Completed, 4, AwdEventStatus::Running).unwrap(), (RoundStep::Skip, None));
    assert_eq!(seconds_after(5, 3), 3_000_000_005);
}

#[test]
fn restart_restores_missing_round_tasks() {
    assert_eq!(plan_restore(RoundStatus::Active, 77, None, false, false), Some((RoundTask::RoundEnd, 77)));
    assert_eq!(plan_restore(RoundStatus::Active, 77, None, true, false), None);
    assert_eq!(plan_restore(RoundStatus::Grace, 77, Some(88), false, false), Some((RoundTask::GraceEnd, 88)));
    assert_eq!(plan_restore(RoundStatus::Grace, 77, None, false, false), None);
    assert_eq!(plan_restore(RoundStatus::Paused, 77, Some(88), false, false), None);
}

#[test]
fn judge_timeouts_score_down_points() {
    assert_eq!(judge_timeout_delta(Some(20)), -20);
    assert_eq!(judge_timeout_delta(None), 0);
    assert_eq!(judge_timeout_key(2), "judge-timeout:00000000-0000-0000-0000-000000000002");
    assert!(is_duplicate_key("ERROR 23505: Duplicate Key"));
    assert!(is_duplicate_key("DUPLICATE"));
    assert!(!is_duplicate_key("deadlock detected"));
}

#[test]
fn event_lifecycle_gates() {
    assert!(assert_network_editable(&AwdEventStatus::Draft).is_ok());
    assert!(matches!(assert_network_editable(&AwdEventStatus::Running), Err(AwdError::NetworkLocked(_))));
    assert_eq!(plan_deploy(AwdEventStatus::Configuring).unwrap(), true);
    assert_eq!(plan_deploy(AwdEventStatus::Deploying).unwrap(), false);
    assert_eq!(plan_deploy(AwdEventStatus::DeployFailed).unwrap(), true);
    assert!(matches!(assert_network_editable(&AwdEventStatus::Deployed), Err(AwdError::NetworkLocked(_))));
    match plan_deploy(AwdEventStatus::Running) {
        Err(AwdError::InvalidState(m)) => assert_eq!(m, "Cannot deploy event in Running status"),
        other => panic!("unexpected {other:?}"),
    }
    assert_eq!(status_after_failed_deploy(AwdEventStatus::Deploying), Some(AwdEventStatus::DeployFailed));
    assert_eq!(status_after_failed_deploy(AwdEventStatus::Deployed), None);
    let s = plan_start(AwdEventStatus::Verified, true, 0, 60).unwrap();
    assert_eq!((s.status, s.phase, s.round_number, s.round_end_nanos), (AwdEventStatus::Running, AwdPhase::Hardening, 1, 60_000_000_000));
    assert!(plan_start(AwdEventStatus::Verified, false, 0, 60).is_err());
    assert_eq!(plan_finish(AwdEventStatus::Paused).unwrap(), AwdEventStatus::Finished);
    assert!(plan_finish(AwdEventStatus::Verified).is_err());
}

#[test]
fn pause_then_resume_restores_phase_and_time() {
    let p = plan_pause(AwdEventStatus::Running, AwdPhase::Attack, Some(100_500_000_000), 40_000_000_000).unwrap();
    assert_eq!(p.remaining_secs, 60);
    assert_eq!(p.paused_phase, AwdPhase::Attack);
    let r = plan_resume(AwdEventStatus::Paused, Some(p.paused_phase), Some(Some(p.remaining_secs)), 300, 1_000).unwrap();
    assert_eq!(r.phase, AwdPhase::Attack);
    assert_eq!(r.round_end_nanos, Some(1_000 + 60_000_000_000));
    assert!(plan_resume(AwdEventStatus::Running, None, None, 300, 0).is_err());
}

use floatctf_awd::gamebox::{decide_import, import_temp_tag, ImportDecision};

#[test]
fn package_import_decisions() {
    assert_eq!(decide_import(None, "d1", "1.0.0").unwrap(), ImportDecision::CreateNew);
    assert_eq!(decide_import(Some(("ready", "d1")), "d1", "1.0.0").unwrap(), ImportDecision::AlreadyReady);
    assert_eq!(decide_import(Some(("failed", "d1")), "d1", "1.0.0").unwrap(), ImportDecision::RetryFailed);
    match decide_import(Some(("ready", "d0")), "d1", "1.0.0") {
        Err(AwdError::Conflict(m)) => assert_eq!(m, "VERSION_CONFLICT: version 1.0.0 already ready with different package_digest"),
        other => panic!("unexpected {other:?}"),
    }
    assert!(matches!(decide_import(Some(("building", "d1")), "d1", "1.0.0"), Err(AwdError::Conflict(_))));
    assert!(matches!(decide_import(Some(("weird", "d1")), "d1", "1.0.0"), Err(AwdError::Conflict(_))));
    assert_eq!(import_temp_tag("floatctf/gameboxes/ttt1:1.0.0", EVENT), "floatctf/gameboxes/ttt1:1.0.0-import-01234567");
}

use floatctf_awd::precheck_probe::LiveContainer;
use floatctf_awd::recovery::{counts_as_recovered, recover_instance, InstanceRecovery};

fn live_box(name: &str, id: &str, running: bool) -> LiveContainer {
    LiveContainer { container_name: name.to_string(), container_id: id.to_string(), running, status: String::new() }
}

#[test]
fn recovery_reconciles_instances() {
    let live = vec![live_box("a", "old", false), live_box("a", "new", true), live_box("b", "b1", true), live_box("c", "c1", false)];
    assert_eq!(recover_instance(&live, "a", Some("x"), GameboxStatus::Ready), InstanceRecovery::Adopt("new".to_string()));
    assert_eq!(recover_instance(&live, "b", Some("b1"), GameboxStatus::Ready), InstanceRecovery::Keep);
    assert_eq!(recover_instance(&live, "c", Some("c1"), GameboxStatus::Running), InstanceRecovery::MarkMissing);
    assert_eq!(recover_instance(&live, "z", None, GameboxStatus::Pending), InstanceRecovery::MarkMissing);
    assert_eq!(recover_instance(&live, "z", None, GameboxStatus::StartFailed), InstanceRecovery::Ignore);
    assert!(counts_as_recovered(&InstanceRecovery::Keep));
    assert!(!counts_as_recovered(&InstanceRecovery::Ignore));
}

use floatctf_awd::deploy::gamebox_host_ip;
use floatctf_awd::wireguard::{allocate_team_peer_ip, reuse_existing_peer};

#[test]
fn gamebox_hosts_skip_the_first_address() {
    let team = Ipv4Cidr::parse("10.50.3.0/24").unwrap();
    assert_eq!(gamebox_host_ip(&team, 0).unwrap(), parse_ipv4("10.50.3.2").unwrap());
    assert_eq!(gamebox_host_ip(&team, 252).unwrap(), parse_ipv4("10.50.3.254").unwrap());
    assert!(matches!(gamebox_host_ip(&team, 253), Err(AwdError::Network(_))));
}

#[test]
fn team_peer_ips_follow_the_counter() {
    assert_eq!(allocate_team_peer_ip("10.60.1.0/24", 2).unwrap(), ("10.60.1.3/32".to_string(), 3));
    assert!(matches!(allocate_team_peer_ip("bogus", 2), Err(AwdError::Validation(_))));
    assert!(matches!(allocate_team_peer_ip("10.60.1.0/30", 2), Err(AwdError::Network(_))));
    assert!(reuse_existing_peer(Some(true)));
    assert!(!reuse_existing_peer(Some(false)));
    assert!(!reuse_existing_peer(None));
}

use floatctf_awd::deploy::password_from_indices;
use floatctf_awd::gamebox::import_existing;
use floatctf_awd::submission::{submission_outcome, SubmissionWrites};

#[test]
fn password_spells_the_drawn_indices() {
    assert_eq!(password_from_indices(&[0, 1, 56, 24]), "AB9a");
    assert_eq!(password_from_indices(&[]), "");
    assert_eq!(PASSWORD_CHARSET.len(), 57);
}

fn clean_writes() -> SubmissionWrites {
    SubmissionWrites {
        has_submission: Ok(false),
        submission_insert: Ok(()),
        attack_insert: Ok(()),
        loss_insert: Ok(()),
        first_blood: Ok(true),
    }
}

#[test]
fn submission_outcome_scores_and_publishes_break_points() {
    let o = submission_outcome(&clean_writes(), 100, 50, 30).unwrap();
    assert_eq!(
        (o.result.attack_score_delta, o.result.victim_loss_delta, o.result.first_bonus_delta, o.result.was_first_blood),
        (100, 50, 30, true)
    );
    assert_eq!(o.victim_score_delta, -50);
    assert_eq!(o.published, (100, 100));
    let mut w = clean_writes();
    w.first_blood = Ok(false);
    assert_eq!(submission_outcome(&w, 100, 50, 30).unwrap().result.first_bonus_delta, 0);
}

#[test]
fn submission_outcome_stops_at_the_first_failed_step() {
    let mut w = clean_writes();
    w.has_submission = Ok(true);
    w.attack_insert = Err("io".to_string());
    assert!(matches!(submission_outcome(&w, 1, 1, 1), Err(AwdError::Conflict(m)) if m == "Already submitted this flag for this target this round"));
    let mut w = clean_writes();
    w.submission_insert = Err("duplicate key".to_string());
    assert!(matches!(submission_outcome(&w, 1, 1, 1), Err(AwdError::Conflict(m)) if m == "Already submitted (concurrent request)"));
    let mut w = clean_writes();
    w.attack_insert = Err("unique violation".to_string());
    assert!(matches!(submission_outcome(&w, 1, 1, 1), Err(AwdError::Conflict(m)) if m == "Attack already scored"));
    let mut w = clean_writes();
    w.loss_insert = Err("io".to_string());
    assert_eq!(submission_outcome(&w, 1, 1, 1).err(), Some(AwdError::Database("Victim loss scoring failed: io".to_string())));
    let mut w = clean_writes();
    w.first_blood = Err("io".to_string());
    assert_eq!(submission_outcome(&w, 1, 1, 1).err(), Some(AwdError::Database("First blood bonus write failed: io".to_string())));
    let mut w = clean_writes();
    w.has_submission = Err("down".to_string());
    assert_eq!(submission_outcome(&w, 1, 1, 1).err(), Some(AwdError::Database("down".to_string())));
}

#[test]
fn reimporting_a_ready_package_builds_nothing() {
    let mut rev = dummy_revision(Some("sha256:abc"), None, Some("reg/box:1"), BUILD_STATUS_READY);
    rev.id = 42;
    let r = import_existing(7, Some((rev, "d1".to_string())), "d1", "1.0.0").unwrap().unwrap();
    assert!(r.already_exists);
    assert_eq!((r.gamebox_id, r.revision.id), (7, 42));
    assert!(import_existing(7, None, "d1", "1.0.0").unwrap().is_none());
    let failed = dummy_revision(None, None, None, "failed");
    assert!(import_existing(7, Some((failed, "d1".to_string())), "d1", "1.0.0").unwrap().is_none());
    let ready = dummy_revision(Some("sha256:abc"), None, None, BUILD_STATUS_READY);
    match import_existing(7, Some((ready, "d1".to_string())), "d2", "1.0.0") {
        Err(AwdError::Conflict(m)) => assert_eq!(m, "VERSION_CONFLICT: version 1.0.0 already ready with different package_digest"),
        _ => panic!("expected a conflict"),
    }
}
