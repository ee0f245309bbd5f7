use std::str::FromStr;

use floatctf_awd::awdp_config::{AwdpConfig, AwdpConfigPatch, RunConfigSnapshot};
use floatctf_awd::awdp_ident::{
    awdp_flag, break_idempotency_key, derive_run_flag_key, event_acl_table_name, event_judge_container_name,
    event_judge_worker_id, event_network_name, fix_idempotency_key, hash_flag, is_practice_event,
    practice_judge_token, practice_network_name, subject_key,
};
use floatctf_awd::awdp_phase::{AwdpPhase, AwdpPhaseExt};
use floatctf_awd::awdp_timing::{round_windows, total_rounds};
use uuid::Uuid;

fn id(s: &str) -> u128 {
    Uuid::from_str(s).unwrap().as_u128()
}

fn ids() -> (u128, u128, u128) {
    (
        id("00000000-0000-0000-0000-000000000001"),
        id("00000000-0000-0000-0000-000000000002"),
        id("00000000-0000-0000-0000-000000000003"),
    )
}

#[test]
fn defaults_match_plan() {
    let c = AwdpConfig::default();
    c.validate().unwrap();
    assert_eq!(c.break_duration_secs, 3600);
    assert_eq!(c.fix_duration_secs, 3600);
    assert_eq!(c.fix_round_interval_secs, 600);
    assert_eq!(c.break_score, 1000);
    assert_eq!(c.fix_round_score, 150);
    assert_eq!(c.total_rounds(), 6);
}

#[test]
fn non_divisible_interval_rejected() {
    let c = AwdpConfig { fix_duration_secs: 3600, fix_round_interval_secs: 700, ..Default::default() };
    let err = c.validate().unwrap_err();
    assert!(err.to_string().contains("divisible"));
}

#[test]
fn zero_duration_rejected() {
    let c = AwdpConfig { break_duration_secs: 0, ..Default::default() };
    assert!(c.validate().is_err());
}

#[test]
fn patch_applies_partially() {
    let base = AwdpConfig::default();
    let patch = AwdpConfigPatch { fix_duration_secs: Some(1200), fix_round_interval_secs: Some(600), ..Default::default() };
    patch.validate().unwrap();
    let next = patch.apply_to(&base);
    assert_eq!(next.fix_duration_secs, 1200);
    assert_eq!(next.break_duration_secs, 3600);
    assert_eq!(next.total_rounds(), 2);
    next.validate().unwrap();
}

#[test]
fn invalid_patch_field_rejected() {
    let patch = AwdpConfigPatch { break_duration_secs: Some(-5), ..Default::default() };
    assert!(patch.validate().is_err());
}

#[test]
fn empty_patch_keeps_config() {
    let base = AwdpConfig { break_score: 7, ..Default::default() };
    let p = AwdpConfigPatch::default();
    assert_eq!(p.apply_to(&base), base);
    assert_eq!(p.apply_to(&p.apply_to(&base)), p.apply_to(&base));
}

#[test]
fn run_snapshot_becomes_config() {
    let run = RunConfigSnapshot {
        break_duration_secs: 10,
        fix_duration_secs: 20,
        fix_round_interval_secs: 5,
        break_score: 1,
        fix_round_score: 2,
    };
    let c = AwdpConfig::from_run(&run);
    assert_eq!(c.total_rounds(), 4);
    assert_eq!(c.break_score, 1);
}

#[test]
fn flag_is_deterministic_per_subject() {
    let (r, g, u) = ids();
    let secret = b"platform-secret";
    let f1 = awdp_flag(secret, r, g, Some(u), None, "flag");
    let f2 = awdp_flag(secret, r, g, Some(u), None, "flag");
    assert_eq!(f1, f2);
    assert!(f1.starts_with("flag{") && f1.ends_with('}'));
}

#[test]
fn different_subjects_get_different_flags() {
    let (r, g, _u) = ids();
    let u1 = id("00000000-0000-0000-0000-00000000000a");
    let u2 = id("00000000-0000-0000-0000-00000000000b");
    let secret = b"platform-secret";
    let f1 = awdp_flag(secret, r, g, Some(u1), None, "flag");
    let f2 = awdp_flag(secret, r, g, Some(u2), None, "flag");
    assert_ne!(f1, f2);
    let t = id("00000000-0000-0000-0000-00000000000c");
    let f3 = awdp_flag(secret, r, g, None, Some(t), "flag");
    assert_ne!(f1, f3);
}

#[test]
fn different_runs_get_different_flags() {
    let (r, g, u) = ids();
    let r2 = id("00000000-0000-0000-0000-0000000000ff");
    let secret = b"platform-secret";
    assert_ne!(awdp_flag(secret, r, g, Some(u), None, "flag"), awdp_flag(secret, r2, g, Some(u), None, "flag"));
}

#[test]
fn hash_is_stable() {
    assert_eq!(hash_flag("flag{x}"), hash_flag("flag{x}"));
    assert_ne!(hash_flag("flag{x}"), hash_flag("flag{y}"));
}

#[test]
fn flag_hash_is_sha256_hex() {
    // sha256("abc")
    assert_eq!(hash_flag("abc"), "ba7816bf8f01cfea414140de5dae2223b00361a396177a9cb410ff61f20015ad");
}

#[test]
fn flag_body_is_hmac_of_subject() {
    let (r, g, u) = ids();
    let secret = b"platform-secret";
    let f = awdp_flag(secret, r, g, Some(u), None, "ctf");
    assert_eq!(f.len(), "ctf".len() + 34);
    let key = derive_run_flag_key(secret, "00000000-0000-0000-0000-000000000001");
    assert_eq!(key.len(), 32);
    assert_eq!(subject_key(Some(u), None), "user:00000000-0000-0000-0000-000000000003");
}

#[test]
fn judge_token_is_deterministic_and_hex() {
    let t1 = practice_judge_token(b"platform-secret");
    let t2 = practice_judge_token(b"platform-secret");
    assert_eq!(t1, t2);
    assert_eq!(t1.len(), 64);
    assert!(t1.bytes().all(|b| b.is_ascii_hexdigit()));
}

#[test]
fn judge_token_differs_between_secrets() {
    assert_ne!(practice_judge_token(b"secret-a"), practice_judge_token(b"secret-b"));
}

/// The fixed id of the platform's practice event, as configured for these tests.
const PRACTICE_EVENT: u128 = 0x0000_0000_0000_0000_0000_0000_0000_00a1;

#[test]
fn event_identities_are_deterministic_and_prefixed() {
    let ev = 0x0123_4567_89ab_cdef_0123_4567_89ab_cdef_u128;
    let net = event_network_name(ev);
    let cont = event_judge_container_name(ev, PRACTICE_EVENT);
    let worker = event_judge_worker_id(ev);
    let acl = event_acl_table_name(ev);
    assert!(net.starts_with("fctf-awdp-"));
    assert!(cont.starts_with("fctf-awdp-judge-"));
    assert!(worker.starts_with("practice-judge-"));
    assert!(acl.starts_with("floatctf_awdp_"));
    assert_eq!(net, event_network_name(ev));
    assert_ne!(event_network_name(ev), event_network_name(0));
    assert!(!acl.contains('-'));
}

#[test]
fn practice_event_is_detected() {
    assert!(is_practice_event(PRACTICE_EVENT, PRACTICE_EVENT));
    assert!(!is_practice_event(0, PRACTICE_EVENT));
}

#[test]
fn practice_names_are_fixed() {
    assert_eq!(practice_network_name(), "fctf-awdp-practice");
    assert_eq!(event_judge_container_name(PRACTICE_EVENT, PRACTICE_EVENT), "fctf-awdp-practice-judge");
    assert_eq!(event_network_name(0x0123_4567_89ab_cdef_0123_4567_89ab_cdef), "fctf-awdp-0123456789ab");
}

#[test]
fn linear_state_machine() {
    assert!(AwdpPhase::Pending.can_transition_to(AwdpPhase::Break).is_ok());
    assert!(AwdpPhase::Break.can_transition_to(AwdpPhase::PreparingFix).is_ok());
    assert!(AwdpPhase::PreparingFix.can_transition_to(AwdpPhase::Fix).is_ok());
    assert!(AwdpPhase::Fix.can_transition_to(AwdpPhase::Ended).is_ok());
}

#[test]
fn no_retrograde_or_skip() {
    assert!(AwdpPhase::Pending.can_transition_to(AwdpPhase::Fix).is_err());
    assert!(AwdpPhase::Pending.can_transition_to(AwdpPhase::Ended).is_err());
    assert!(AwdpPhase::Break.can_transition_to(AwdpPhase::Pending).is_err());
    assert!(AwdpPhase::Break.can_transition_to(AwdpPhase::Fix).is_err(), "Break must go through PreparingFix");
    assert!(AwdpPhase::Ended.can_transition_to(AwdpPhase::Pending).is_err());
    assert!(AwdpPhase::Ended.can_transition_to(AwdpPhase::Fix).is_err());
}

#[test]
fn active_and_terminal() {
    assert!(AwdpPhase::Break.is_active());
    assert!(AwdpPhase::Fix.is_active());
    assert!(!AwdpPhase::Pending.is_active());
    assert!(AwdpPhase::Ended.is_terminal());
}

#[test]
fn keys_are_stable_and_unique() {
    let r = id("00000000-0000-0000-0000-000000000001");
    let g = id("00000000-0000-0000-0000-000000000002");
    let rnd = id("00000000-0000-0000-0000-000000000003");
    let i = id("00000000-0000-0000-0000-000000000004");
    let u = Some(id("00000000-0000-0000-0000-000000000005"));
    let t = Some(id("00000000-0000-0000-0000-000000000006"));
    let k1 = break_idempotency_key(r, g, u, None);
    let k2 = break_idempotency_key(r, g, None, t);
    assert_ne!(k1, k2);
    assert!(k1.starts_with("awdp:break:"));
    assert_eq!(break_idempotency_key(r, g, u, None), k1, "stable");
    let f1 = fix_idempotency_key(r, rnd, i);
    assert!(f1.starts_with("awdp:fix:"));
    assert_eq!(fix_idempotency_key(r, rnd, i), f1, "stable");
}

#[test]
fn rounds_3600_over_600_is_six() {
    assert_eq!(total_rounds(3600, 600), 6);
    assert_eq!(total_rounds(1200, 600), 2);
}

const SEC: i64 = 1_000_000_000;

fn dt(secs: i64) -> i64 {
    (1_700_000_000 + secs) * SEC
}

#[test]
fn first_cutoff_and_final_cutoff() {
    let fix_start = dt(0);
    let windows = round_windows(fix_start, 600 * SEC, 6);
    assert_eq!(windows.len(), 6);
    assert_eq!(windows[0].sequence, 1);
    assert_eq!(windows[0].starts_at, fix_start);
    assert_eq!(windows[0].cutoff_at, dt(600));
    assert_eq!(windows[5].cutoff_at, dt(3600));
    for w in windows.windows(2) {
        assert_eq!(w[0].cutoff_at, w[1].starts_at);
    }
}

#[test]
fn phase_transition_error_names_both_phases() {
    let e = AwdpPhase::Break.can_transition_to(AwdpPhase::Fix).unwrap_err();
    assert!(e.contains("Break") || e.contains("break"));
}

use hmac::Mac;

#[test]
fn judge_token_matches_hkdf_derivation() {
    let secret = b"platform-secret";
    let hk = hkdf::Hkdf::<sha2::Sha256>::new(Some(b"floatctf-awdp-practice-judge"), secret);
    let mut okm = [0u8; 32];
    hk.expand(b"internal-token", &mut okm).unwrap();
    assert_eq!(practice_judge_token(secret), hex::encode(okm));
}

#[test]
fn flag_matches_hkdf_then_hmac() {
    let (r, g, u) = ids();
    let secret = b"platform-secret";
    let run_text = "00000000-0000-0000-0000-000000000001";
    let hk = hkdf::Hkdf::<sha2::Sha256>::new(Some(b"floatctf-awdp-flag"), secret);
    let mut key = [0u8; 32];
    hk.expand(run_text.as_bytes(), &mut key).unwrap();
    assert_eq!(derive_run_flag_key(secret, run_text), key.to_vec());
    let mut mac = hmac::Hmac::<sha2::Sha256>::new_from_slice(&key).unwrap();
    mac.update(b"awdp:00000000-0000-0000-0000-000000000001:00000000-0000-0000-0000-000000000002:user:00000000-0000-0000-0000-000000000003");
    let tag = mac.finalize().into_bytes();
    let expected = format!("flag{{{}}}", hex::encode(&tag[..16]));
    assert_eq!(awdp_flag(secret, r, g, Some(u), None, "flag"), expected);
}
