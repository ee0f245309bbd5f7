use floatctf_awd::awd_network::{validate_no_cross_event_overlap, EventCidrs, TeamNetwork};
use floatctf_awd::error::AwdError;

fn event_model(id: u128, gamebox_cidr: &str, wireguard_cidr: &str) -> EventCidrs {
    EventCidrs {
        event_id: id + 1,
        gamebox_cidr: gamebox_cidr.to_string(),
        wireguard_cidr: wireguard_cidr.to_string(),
    }
}

fn network_model(event_id: u128, gamebox_subnet: &str, wireguard_subnet: &str) -> TeamNetwork {
    TeamNetwork {
        event_id,
        gamebox_subnet: gamebox_subnet.to_string(),
        wireguard_subnet: wireguard_subnet.to_string(),
    }
}

#[test]
fn test_validate_disjoint_cidrs_ok() {
    let events = vec![event_model(0x1000, "10.20.0.0/16", "172.20.0.0/16")];
    let networks = vec![network_model(events[0].event_id, "10.20.1.0/24", "172.20.1.0/24")];
    let result = validate_no_cross_event_overlap(
        &events,
        &networks,
        "10.30.0.0/16",
        "172.30.0.0/16",
        "10.30.0.2",
        "10.30.0.3",
    );
    assert!(result.is_ok());
}

#[test]
fn test_validate_same_gamebox_cidr_rejected() {
    let events = vec![event_model(0x1000, "10.20.0.0/16", "172.20.0.0/16")];
    let result = validate_no_cross_event_overlap(&events, &[], "10.20.0.0/16", "172.30.0.0/16", "10.30.0.2", "10.30.0.3");
    assert!(matches!(result, Err(AwdError::Conflict(_))));
}

#[test]
fn test_validate_wireguard_overlapping_other_gamebox_rejected() {
    let events = vec![event_model(0x1000, "10.20.0.0/16", "172.20.0.0/16")];
    let result = validate_no_cross_event_overlap(&events, &[], "10.30.0.0/16", "10.20.128.0/16", "10.30.0.2", "10.30.0.3");
    assert!(matches!(result, Err(AwdError::Conflict(_))));
}

#[test]
fn test_validate_flagserver_ip_in_other_team_subnet_rejected() {
    let events = vec![event_model(0x1000, "10.20.0.0/16", "172.20.0.0/16")];
    let networks = vec![network_model(events[0].event_id, "10.99.1.0/24", "172.99.1.0/24")];
    let result = validate_no_cross_event_overlap(
        &events,
        &networks,
        "10.30.0.0/16",
        "172.30.0.0/16",
        "10.99.1.5",
        "10.30.0.3",
    );
    assert!(matches!(result, Err(AwdError::Conflict(_))));
}

#[test]
fn test_validate_judgeserver_ip_in_other_wireguard_rejected() {
    let events = vec![event_model(0x1000, "10.20.0.0/16", "172.20.0.0/16")];
    let result = validate_no_cross_event_overlap(&events, &[], "10.30.0.0/16", "172.30.0.0/16", "10.30.0.2", "172.20.5.9");
    assert!(matches!(result, Err(AwdError::Conflict(_))));
}

#[test]
fn cross_event_unparsable_own_cidr_is_validation() {
    let result = validate_no_cross_event_overlap(&[], &[], "10.30.0.0", "172.30.0.0/16", "10.30.0.2", "10.30.0.3");
    assert!(matches!(result, Err(AwdError::Validation(_))));
}

#[test]
fn cross_event_without_other_events_passes() {
    let result = validate_no_cross_event_overlap(&[], &[], "10.30.0.0/16", "172.30.0.0/16", "10.30.0.2", "10.30.0.3");
    assert!(result.is_ok());
}
