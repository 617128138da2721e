//! Concrete instances of the engine's guarantees: idempotent apply, the round
//! trip back to an unmanaged state, preservation of foreign records, and the
//! no-op revert.

use dns_switcher::engine::{get_current_dns, remove_custom_dns, set_dns, DnsAnswer};
use dns_switcher::errors::EngineError;
use dns_switcher::model::{DeviceState, Lease};

const MARKER: &str = "DNS-Switcher-Managed";
const DNS: &str = "9.9.9.9";

fn foreign_lease(address: &str) -> Lease {
    Lease {
        id: 0,
        address: address.to_string(),
        mac_address: None,
        dynamic: false,
        comment: "someone-else".to_string(),
        dns_option_name: None,
    }
}

#[test]
fn apply_twice_succeeds_and_leaves_state_unchanged() {
    let mut dev = DeviceState::new();
    assert!(set_dns(&mut dev, "10.0.0.50", DNS, MARKER).is_ok());
    let after_first = DeviceState {
        leases: dev.leases.clone(),
        options: dev.options.clone(),
        global_dns: dev.global_dns.clone(),
        next_id: dev.next_id,
    };
    assert!(set_dns(&mut dev, "10.0.0.50", DNS, MARKER).is_ok());
    assert_eq!(dev, after_first);
}

#[test]
fn apply_twice_on_dynamic_lease_succeeds_and_leaves_state_unchanged() {
    let mut dev = DeviceState::new();
    dev.leases.push(Lease {
        id: 0,
        address: "10.0.0.60".to_string(),
        mac_address: Some("AA:BB:CC:DD:EE:FF".to_string()),
        dynamic: true,
        comment: String::new(),
        dns_option_name: None,
    });
    dev.next_id = 1;
    assert!(set_dns(&mut dev, "10.0.0.60", DNS, MARKER).is_ok());
    let after_first = DeviceState {
        leases: dev.leases.clone(),
        options: dev.options.clone(),
        global_dns: dev.global_dns.clone(),
        next_id: dev.next_id,
    };
    assert!(set_dns(&mut dev, "10.0.0.60", DNS, MARKER).is_ok());
    assert_eq!(dev, after_first);
}

#[test]
fn apply_then_revert_returns_to_unmanaged_and_query_falls_back() {
    let mut dev = DeviceState::new();
    dev.global_dns = Some("192.168.88.1".to_string());

    assert!(set_dns(&mut dev, "10.0.0.50", DNS, MARKER).is_ok());
    assert!(remove_custom_dns(&mut dev, "10.0.0.50", MARKER).is_ok());

    assert!(dev.find_managed_by_address("10.0.0.50", MARKER).is_none());
    assert!(dev.find_option_by_name("dns-10-0-0-50").is_none());
    assert_eq!(
        get_current_dns(&dev, "10.0.0.50"),
        DnsAnswer::GlobalDns("192.168.88.1".to_string())
    );
}

#[test]
fn apply_preserves_foreign_lease_and_fails() {
    let mut dev = DeviceState::new();
    dev.leases.push(foreign_lease("10.0.0.70"));
    dev.next_id = 1;

    let r = set_dns(&mut dev, "10.0.0.70", DNS, MARKER);
    match r {
        Err(EngineError::Conflict(c)) => assert_eq!(c, "someone-else"),
        other => panic!("expected a conflict, got {:?}", other),
    }
    assert_eq!(dev.leases.len(), 1);
    assert_eq!(dev.leases[0], foreign_lease("10.0.0.70"));
}

#[test]
fn revert_preserves_foreign_lease_and_fails() {
    let mut dev = DeviceState::new();
    dev.leases.push(foreign_lease("10.0.0.70"));
    dev.next_id = 1;
    let before = DeviceState {
        leases: vec![foreign_lease("10.0.0.70")],
        options: Vec::new(),
        global_dns: None,
        next_id: 1,
    };

    let r = remove_custom_dns(&mut dev, "10.0.0.70", MARKER);
    match r {
        Err(EngineError::Conflict(c)) => assert_eq!(c, "someone-else"),
        other => panic!("expected a conflict, got {:?}", other),
    }
    assert_eq!(dev, before);
}

#[test]
fn apply_preserves_foreign_option_and_fails() {
    let mut dev = DeviceState::new();
    assert!(dev
        .ensure_option("dns-10-0-0-50", 6, "'1.1.1.1'", "someone-else")
        .is_ok());
    let before = DeviceState {
        leases: Vec::new(),
        options: dev.options.clone(),
        global_dns: None,
        next_id: 0,
    };

    let r = set_dns(&mut dev, "10.0.0.50", DNS, MARKER);
    match r {
        Err(EngineError::Conflict(c)) => assert_eq!(c, "someone-else"),
        other => panic!("expected a conflict, got {:?}", other),
    }
    assert_eq!(dev, before);
}

#[test]
fn revert_on_unmanaged_dynamic_lease_is_a_noop_success() {
    let mut dev = DeviceState::new();
    dev.leases.push(Lease {
        id: 0,
        address: "10.0.0.90".to_string(),
        mac_address: None,
        dynamic: true,
        comment: String::new(),
        dns_option_name: None,
    });
    dev.next_id = 1;
    let before = DeviceState {
        leases: dev.leases.clone(),
        options: Vec::new(),
        global_dns: None,
        next_id: 1,
    };

    assert!(remove_custom_dns(&mut dev, "10.0.0.90", MARKER).is_ok());
    assert_eq!(dev, before);
}
