use floatctf_awd::awd_event::{in_firewall_desired_set, AwdEventStatus, AwdPhase};
use floatctf_awd::cidr::{parse_ipv4, Ipv4Cidr};
use floatctf_awd::firewall::{
    infra_network, merge_rendered_rules, render_attack_rules, render_ban_rules, render_hardening_rules,
    render_pause_rules, render_rules_for_phase, short_hash, ChainNames,
};
use floatctf_awd::firewall::{apply_failure, snapshot_failure};
use floatctf_awd::error::AwdError;

#[test]
fn desired_set_covers_non_terminal_runtime_states() {
    assert!(in_firewall_desired_set(&AwdEventStatus::Deploying));
    assert!(in_firewall_desired_set(&AwdEventStatus::Deployed));
    assert!(in_firewall_desired_set(&AwdEventStatus::Prechecking));
    assert!(in_firewall_desired_set(&AwdEventStatus::Verified));
    assert!(in_firewall_desired_set(&AwdEventStatus::Running));
    assert!(in_firewall_desired_set(&AwdEventStatus::Paused));
    assert!(in_firewall_desired_set(&AwdEventStatus::NetworkError));
    assert!(in_firewall_desired_set(&AwdEventStatus::StartBlocked));
    assert!(in_firewall_desired_set(&AwdEventStatus::DeployFailed));
    assert!(!in_firewall_desired_set(&AwdEventStatus::Draft));
    assert!(!in_firewall_desired_set(&AwdEventStatus::Configuring));
    assert!(!in_firewall_desired_set(&AwdEventStatus::Finished));
    assert!(!in_firewall_desired_set(&AwdEventStatus::Archived));
    assert!(!in_firewall_desired_set(&AwdEventStatus::VerificationFailed));
}

#[test]
fn infra_network_is_flagserver_24() {
    let net = infra_network(parse_ipv4("10.42.0.10").unwrap());
    assert_eq!(net.to_string().as_str(), "10.42.0.0/24");
}

#[test]
fn phase_rules_differ_for_hardening_and_attack() {
    let gb = Ipv4Cidr::parse("10.0.0.0/16").unwrap();
    let wg = Ipv4Cidr::parse("10.1.0.0/16").unwrap();
    let h = render_rules_for_phase("evt", AwdPhase::Hardening, &gb, &wg, "10.0.0.1", "10.0.0.2", &[]);
    let a = render_rules_for_phase("evt", AwdPhase::Attack, &gb, &wg, "10.0.0.1", "10.0.0.2", &[]);
    assert_ne!(h.iptables_restore_input, a.iptables_restore_input);
    assert!(h.description.to_lowercase().contains("harden") || h.iptables_restore_input.contains("FCTF-H-"));
    assert!(a.iptables_restore_input.contains("ACCEPT") || !a.iptables_restore_input.is_empty());
}

#[test]
fn pause_rules_are_non_empty() {
    let gb = Ipv4Cidr::parse("10.0.0.0/16").unwrap();
    let wg = Ipv4Cidr::parse("10.1.0.0/16").unwrap();
    let p = render_rules_for_phase("evt", AwdPhase::Pause, &gb, &wg, "10.0.0.1", "10.0.0.2", &[]);
    assert!(!p.iptables_restore_input.is_empty());
}

#[test]
fn test_short_hash_deterministic() {
    let h1 = short_hash("test-event-id");
    let h2 = short_hash("test-event-id");
    assert_eq!(h1, h2);
}

#[test]
fn test_chain_names_length() {
    let chains = ChainNames::for_event("550e8400-e29b-41d4-a716-446655440000");
    assert!(chains.master.len() <= 28, "master chain too long");
    assert!(chains.allow.len() <= 28, "allow chain too long");
    assert!(chains.deny.len() <= 28, "deny chain too long");
}

#[test]
fn test_render_hardening_has_established() {
    let cidr = Ipv4Cidr::parse("10.0.0.0/16").unwrap();
    let wg = Ipv4Cidr::parse("10.1.0.0/16").unwrap();
    let rules = render_hardening_rules("test", &cidr, &wg, "10.0.0.1", "10.0.0.2", &[]);
    assert!(rules.iptables_restore_input.contains("ESTABLISHED,RELATED"));
}

#[test]
fn test_render_attack_allows_gamebox_to_flagserver() {
    let cidr = Ipv4Cidr::parse("10.0.0.0/16").unwrap();
    let wg = Ipv4Cidr::parse("10.1.0.0/16").unwrap();
    let rules = render_attack_rules("test", &cidr, &wg, "10.0.0.1", "10.0.0.2");
    assert!(rules.iptables_restore_input.contains("10.0.0.1"));
    assert!(rules.iptables_restore_input.contains("ACCEPT"));
}

#[test]
fn test_render_pause_drops_all_gamebox() {
    let cidr = Ipv4Cidr::parse("10.0.0.0/16").unwrap();
    let rules = render_pause_rules("test", &cidr);
    assert!(rules.iptables_restore_input.contains("DROP"));
}

#[test]
fn test_ban_chain_name_format() {
    let ban = ChainNames::ban_chain("event1", "team1");
    assert!(ban.starts_with("FCTF-B-"));
    assert!(ban.len() <= 28);
}

#[test]
fn test_merge_rendered_rules_keeps_both_events() {
    let cidr = Ipv4Cidr::parse("10.0.0.0/16").unwrap();
    let wg = Ipv4Cidr::parse("10.1.0.0/16").unwrap();
    let a = render_pause_rules("event-a", &cidr);
    let b = render_attack_rules("event-b", &cidr, &wg, "10.0.0.1", "10.0.0.2");
    let m = merge_rendered_rules(&[a, b]);
    assert!(m.iptables_restore_input.starts_with("*filter"));
    assert!(m.iptables_restore_input.contains("COMMIT"));
    assert!(m.iptables_restore_input.contains(&short_hash("event-a")));
    assert!(m.iptables_restore_input.contains(&short_hash("event-b")));
    assert_eq!(m.iptables_restore_input.matches("COMMIT").count(), 1);
}

#[test]
fn short_hash_is_eight_hex_digits_of_sha256() {
    // sha256("abc") = ba7816bf...
    assert_eq!(short_hash("abc"), "ba7816bf");
}

#[test]
fn pause_rules_exact_text() {
    let cidr = Ipv4Cidr::parse("10.0.0.0/16").unwrap();
    let rules = render_pause_rules("abc", &cidr);
    assert!(rules.iptables_restore_input.starts_with("*filter\n"));
    assert!(rules.iptables_restore_input.ends_with("COMMIT\n"));
    assert!(rules.iptables_restore_input.contains("FCTF-P-ba7816bf"));
    assert!(rules.iptables_restore_input.contains("10.0.0.0/16"));
}

#[test]
fn ban_rules_name_team_chain() {
    let rules = render_ban_rules("abc", "team1", "10.0.5.0");
    assert!(rules.iptables_restore_input.contains(&ChainNames::ban_chain("abc", "team1")));
    assert!(rules.iptables_restore_input.contains("10.0.5.0/24"));
    assert!(rules.iptables_restore_input.contains("DROP"));
}

#[test]
fn merge_drops_repeated_lines() {
    let cidr = Ipv4Cidr::parse("10.0.0.0/16").unwrap();
    let a = render_pause_rules("same", &cidr);
    let b = render_pause_rules("same", &cidr);
    let single = merge_rendered_rules(&[render_pause_rules("same", &cidr)]);
    let m = merge_rendered_rules(&[a, b]);
    assert_eq!(m.iptables_restore_input, single.iptables_restore_input);
    let empty = merge_rendered_rules(&[]);
    assert_eq!(empty.iptables_restore_input, "*filter\nCOMMIT\n");
}

#[test]
fn attack_drops_server_access_before_the_broad_accepts() {
    let cidr = Ipv4Cidr::parse("10.0.0.0/16").unwrap();
    let wg = Ipv4Cidr::parse("10.1.0.0/16").unwrap();
    let rules = render_attack_rules("abc", &cidr, &wg, "10.0.0.1", "10.0.0.2");
    let expected = "*filter\n\
:FCTF-A-ba7816bf -\n\
-A FCTF-A-ba7816bf -m conntrack --ctstate ESTABLISHED,RELATED -j ACCEPT\n\
-A FCTF-A-ba7816bf -s 10.0.0.0/16 -d 10.0.0.2 -j DROP\n\
-A FCTF-A-ba7816bf -s 10.1.0.0/16 -d 10.0.0.1 -j DROP\n\
-A FCTF-A-ba7816bf -s 10.1.0.0/16 -d 10.0.0.2 -j DROP\n\
-A FCTF-A-ba7816bf -s 10.0.0.0/16 -d 10.0.0.0/16 -j ACCEPT\n\
-A FCTF-A-ba7816bf -s 10.0.0.0/16 -d 10.0.0.1 -j ACCEPT\n\
-A FCTF-A-ba7816bf -s 10.1.0.0/16 -d 10.0.0.0/16 -j ACCEPT\n\
-A FCTF-A-ba7816bf -j RETURN\n\
COMMIT\n";
    assert_eq!(rules.iptables_restore_input, expected);
    let text = &rules.iptables_restore_input;
    let judge_drop = text.find("-s 10.0.0.0/16 -d 10.0.0.2 -j DROP").unwrap();
    let box_accept = text.find("-s 10.0.0.0/16 -d 10.0.0.0/16 -j ACCEPT").unwrap();
    assert!(judge_drop < box_accept);
    assert_eq!(rules.description, "Attack rules for event ba7816bf");
}

#[test]
fn phase_rules_carry_the_phase_description() {
    let gb = Ipv4Cidr::parse("10.0.0.0/16").unwrap();
    let wg = Ipv4Cidr::parse("10.1.0.0/16").unwrap();
    let h = render_rules_for_phase("abc", AwdPhase::Hardening, &gb, &wg, "10.0.0.1", "10.0.0.2", &[]);
    let a = render_rules_for_phase("abc", AwdPhase::Attack, &gb, &wg, "10.0.0.1", "10.0.0.2", &[]);
    let p = render_rules_for_phase("abc", AwdPhase::Pause, &gb, &wg, "10.0.0.1", "10.0.0.2", &[]);
    assert_eq!(h.description, "Hardening rules for event ba7816bf");
    assert_eq!(a.description, "Attack rules for event ba7816bf");
    assert_eq!(p.description, "Pause rules for event ba7816bf");
}

#[test]
fn apply_errors_say_what_failed() {
    assert_eq!(snapshot_failure("iptables-save: not found"), AwdError::Network("Failed to snapshot rules: iptables-save: not found".to_string()));
    assert_eq!(
        apply_failure("bad line 3", Ok(())),
        AwdError::Network("Firewall apply failed, rolled back: bad line 3".to_string())
    );
    assert_eq!(
        apply_failure("bad line 3", Err("locked".to_string())),
        AwdError::Network("Firewall apply failed (bad line 3) AND rollback failed (locked)".to_string())
    );
}

#[test]
fn hardening_hands_team_access_to_the_ban_chain_before_the_drops() {
    let cidr = Ipv4Cidr::parse("10.0.0.0/16").unwrap();
    let wg = Ipv4Cidr::parse("10.1.0.0/16").unwrap();
    let teams = vec![("team1".to_string(), "10.0.5.0/24".to_string(), "10.1.5.0/24".to_string())];
    let rules = render_hardening_rules("abc", &cidr, &wg, "10.0.0.1", "10.0.0.2", &teams);
    let text = &rules.iptables_restore_input;
    let ban = ChainNames::ban_chain("abc", "team1");
    let access = format!("-A FCTF-H-ba7816bf -s 10.1.5.0/24 -d 10.0.5.0/24 -j {ban}");
    let judge = text.find("-A FCTF-H-ba7816bf -s 10.0.0.2 -d 10.0.0.0/16 -j ACCEPT").unwrap();
    let team = text.find(&access).unwrap();
    let isolate = text.find("-A FCTF-H-ba7816bf -s 10.0.0.0/16 -d 10.0.0.0/16 -j DROP").unwrap();
    let to_judge = text.find("-A FCTF-H-ba7816bf -s 10.0.0.0/16 -d 10.0.0.2 -j DROP").unwrap();
    assert!(judge < team && team < isolate && isolate < to_judge);
    assert_eq!(rules.description, "Hardening rules for event ba7816bf");
}

use floatctf_awd::firewall::{apply_start, apply_step, ApplyAction, ApplyEvent, ApplyState};

#[test]
fn apply_takes_a_snapshot_then_applies() {
    let (s, a) = apply_start("*filter\nCOMMIT\n".to_string());
    assert_eq!(a, ApplyAction::Snapshot { chain_prefix: "FCTF-".to_string() });
    let (s, a) = apply_step(s, ApplyEvent::Snapshot(Ok("old".to_string())));
    assert_eq!(s, ApplyState::Applying { snapshot: "old".to_string() });
    assert_eq!(a, ApplyAction::Apply { rules: "*filter\nCOMMIT\n".to_string() });
    let (s, a) = apply_step(s, ApplyEvent::Applied(Ok(())));
    assert_eq!((s, a), (ApplyState::Done, ApplyAction::Finish(Ok(()))));
}

#[test]
fn failed_apply_restores_the_snapshot() {
    let (s, _) = apply_start("new".to_string());
    let (s, _) = apply_step(s, ApplyEvent::Snapshot(Ok("old".to_string())));
    let (s, a) = apply_step(s, ApplyEvent::Applied(Err("bad".to_string())));
    assert_eq!(a, ApplyAction::Apply { rules: "old".to_string() });
    let (s2, a2) = apply_step(s, ApplyEvent::Applied(Ok(())));
    assert_eq!(s2, ApplyState::Done);
    assert_eq!(a2, ApplyAction::Finish(Err(AwdError::Network("Firewall apply failed, rolled back: bad".to_string()))));
    let (s, _) = apply_start("new".to_string());
    let (s, _) = apply_step(s, ApplyEvent::Snapshot(Ok("old".to_string())));
    let (s, _) = apply_step(s, ApplyEvent::Applied(Err("bad".to_string())));
    let (_, a) = apply_step(s, ApplyEvent::Applied(Err("locked".to_string())));
    assert_eq!(
        a,
        ApplyAction::Finish(Err(AwdError::Network("Firewall apply failed (bad) AND rollback failed (locked)".to_string())))
    );
    let (s, _) = apply_start("new".to_string());
    let (s, a) = apply_step(s, ApplyEvent::Snapshot(Err("no iptables".to_string())));
    assert_eq!(s, ApplyState::Done);
    assert_eq!(a, ApplyAction::Finish(Err(AwdError::Network("Failed to snapshot rules: no iptables".to_string()))));
}
