use juicer::profile::profiles::citrus_circuits;
use juicer::profile::SSH_PORT;
use juicer::util::frc::{rio, TeamNumber, MAX_TEAM};

#[test]
fn citrus_profile() {
    let p = citrus_circuits();
    assert_eq!(p.name(), "citrus");
    assert_eq!(p.team().number(), 1678);
    assert_eq!(p.logs(), "/U/logs");
    let c = p.controller();
    assert_eq!(c.hostid, 2);
    assert_eq!(c.username, "admin");
    assert_eq!(c.password, "");
}

#[test]
fn citrus_ssh_inputs() {
    let inputs = citrus_circuits().ssh_inputs();
    assert_eq!(inputs.ip, [10, 16, 78, 2]);
    assert_eq!(inputs.port, SSH_PORT);
    assert_eq!(inputs.port, 22);
    assert_eq!(inputs.username, "admin");
    assert_eq!(inputs.password, "");
}

#[test]
fn team_addresses() {
    assert_eq!(TeamNumber::new(254).unwrap().v4addr(2), [10, 2, 54, 2]);
    assert_eq!(TeamNumber::new(12345).unwrap().v4addr(11), [10, 123, 45, 11]);
    assert_eq!(TeamNumber::new(7).unwrap().v4addr(2), [10, 0, 7, 2]);
    assert_eq!(TeamNumber::new(MAX_TEAM).unwrap().v4addr(2), [10, 255, 99, 2]);
}

#[test]
fn team_numbers_past_the_address_scheme() {
    assert!(TeamNumber::new(MAX_TEAM + 1).is_none());
    assert!(TeamNumber::new(u16::MAX).is_none());
}

#[test]
fn rio_controller() {
    let c = rio();
    assert_eq!(c.hostid, 2);
    assert_eq!(c.username, "admin");
    assert_eq!(c.password, "");
}

#[test]
fn profile_clone_keeps_fields() {
    let p = citrus_circuits();
    let q = p.clone();
    assert_eq!(q.name, p.name);
    assert_eq!(q.team, p.team);
    assert_eq!(q.logs, p.logs);
    assert_eq!(q.controller.username, p.controller.username);
}
