//! End-to-end scenarios for the three client operations against a device
//! state, with the default marker and a custom DNS of 9.9.9.9.

use dns_switcher::engine::{get_current_dns, remove_custom_dns, set_dns, DnsAnswer};
use dns_switcher::errors::EngineError;
use dns_switcher::model::{DeviceState, Lease};

const MARKER: &str = "DNS-Switcher-Managed";
const DNS: &str = "9.9.9.9";

fn lease(
    id: u64,
    address: &str,
    mac: Option<&str>,
    dynamic: bool,
    comment: &str,
    option_name: Option<&str>,
) -> Lease {
    Lease {
        id,
        address: address.to_string(),
        mac_address: mac.map(|s| s.to_string()),
        dynamic,
        comment: comment.to_string(),
        dns_option_name: option_name.map(|s| s.to_string()),
    }
}

#[test]
fn apply_creates_option_and_static_lease() {
    let mut dev = DeviceState::new();
    let r = set_dns(&mut dev, "10.0.0.50", DNS, MARKER);
    assert!(r.is_ok());

    assert_eq!(dev.options.len(), 1);
    let o = &dev.options[0];
    assert_eq!(o.name, "dns-10-0-0-50");
    assert_eq!(o.code, 6);
    assert_eq!(o.value, "'9.9.9.9'");
    assert_eq!(o.comment, MARKER);

    assert_eq!(dev.leases.len(), 1);
    let l = &dev.leases[0];
    assert_eq!(l.address, "10.0.0.50");
    assert!(!l.dynamic);
    assert_eq!(l.comment, MARKER);
    assert_eq!(l.dns_option_name.as_deref(), Some("dns-10-0-0-50"));
    assert_eq!(l.mac_address, None);

    let q = get_current_dns(&dev, "10.0.0.50");
    assert_eq!(q, DnsAnswer::OptionValue("'9.9.9.9'".to_string()));
}

#[test]
fn apply_carries_mac_of_dynamic_lease_and_leaves_it_untouched() {
    let mut dev = DeviceState::new();
    dev.leases.push(lease(
        0,
        "10.0.0.60",
        Some("AA:BB:CC:DD:EE:FF"),
        true,
        "",
        None,
    ));
    dev.next_id = 1;

    let r = set_dns(&mut dev, "10.0.0.60", DNS, MARKER);
    assert!(r.is_ok());

    assert_eq!(dev.leases.len(), 2);
    // The dynamic lease is untouched.
    assert_eq!(
        dev.leases[0],
        lease(0, "10.0.0.60", Some("AA:BB:CC:DD:EE:FF"), true, "", None)
    );
    // The new static lease carries the hardware address.
    let l = &dev.leases[1];
    assert!(!l.dynamic);
    assert_eq!(l.address, "10.0.0.60");
    assert_eq!(l.mac_address.as_deref(), Some("AA:BB:CC:DD:EE:FF"));
    assert_eq!(l.comment, MARKER);
    assert_eq!(l.dns_option_name.as_deref(), Some("dns-10-0-0-60"));
}

#[test]
fn apply_refuses_foreign_static_lease() {
    let mut dev = DeviceState::new();
    dev.leases
        .push(lease(0, "10.0.0.70", None, false, "Office-Printer", None));
    dev.next_id = 1;
    let before_lease = lease(0, "10.0.0.70", None, false, "Office-Printer", None);

    let r = set_dns(&mut dev, "10.0.0.70", DNS, MARKER);
    match r {
        Err(EngineError::Conflict(c)) => assert_eq!(c, "Office-Printer"),
        other => panic!("expected a conflict, got {:?}", other),
    }
    // The foreign lease is completely unmodified.
    assert_eq!(dev.leases.len(), 1);
    assert_eq!(dev.leases[0], before_lease);
}

#[test]
fn revert_without_any_lease_succeeds_and_mutates_nothing() {
    let mut dev = DeviceState::new();
    dev.global_dns = Some("192.168.88.1".to_string());
    let before = DeviceState {
        leases: Vec::new(),
        options: Vec::new(),
        global_dns: Some("192.168.88.1".to_string()),
        next_id: 0,
    };

    let r = remove_custom_dns(&mut dev, "10.0.0.80", MARKER);
    assert!(r.is_ok());
    assert_eq!(dev, before);
}
