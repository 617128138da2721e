//! Unit tests for the ownership policy, naming, configuration, repositories,
//! decisions, reply folding, and header extraction.

use dns_switcher::channel::{attr_value, lease_from_attrs, option_from_attrs, terminal_error,
    DeviceResponse, ReplyAttr};
use dns_switcher::config::{Config, ConfigError};
use dns_switcher::decide::{decide_apply, decide_revert, ApplyDecision, RevertDecision};
use dns_switcher::errors::EngineError;
use dns_switcher::model::{DeviceState, Lease};
use dns_switcher::naming::{option_name_for, quote_value};
use dns_switcher::ownership::{classify, Ownership};
use dns_switcher::utils::{get_custom_ip_from_headers, HttpHeader};

const MARKER: &str = "DNS-Switcher-Managed";

fn attr(key: &str, value: Option<&str>) -> ReplyAttr {
    ReplyAttr { key: key.to_string(), value: value.map(|s| s.to_string()) }
}

#[test]
fn classify_empty_comment_is_unmanaged() {
    assert_eq!(classify("", MARKER), Ownership::Unmanaged);
}

#[test]
fn classify_marker_comment_is_ours() {
    assert_eq!(classify(MARKER, MARKER), Ownership::ManagedByUs);
}

#[test]
fn classify_other_comment_is_foreign() {
    assert_eq!(classify("Office-Printer", MARKER), Ownership::ManagedByOther);
}

#[test]
fn option_name_replaces_dots_with_dashes() {
    assert_eq!(option_name_for("10.0.0.50"), "dns-10-0-0-50");
    assert_eq!(option_name_for(""), "dns-");
    assert_eq!(option_name_for("abc"), "dns-abc");
}

#[test]
fn quote_value_wraps_in_single_quotes() {
    assert_eq!(quote_value("9.9.9.9"), "'9.9.9.9'");
    assert_eq!(quote_value(""), "''");
}

#[test]
fn config_defaults_fill_every_optional_value() {
    let c = Config::build(
        None,
        None,
        None,
        None,
        Some("admin".to_string()),
        Some("secret".to_string()),
        None,
        None,
    )
    .unwrap();
    assert_eq!(c.host, "0.0.0.0");
    assert_eq!(c.port, 3000);
    assert_eq!(c.mikrotik_host, "192.168.88.1");
    assert_eq!(c.mikrotik_port, 8728);
    assert_eq!(c.mikrotik_username, "admin");
    assert_eq!(c.mikrotik_password, "secret");
    assert_eq!(c.custom_dns, "8.8.8.8");
    assert_eq!(c.app_comment, "DNS-Switcher-Managed");
}

#[test]
fn config_requires_username_then_password() {
    let r = Config::build(None, None, None, None, None, None, None, None);
    assert_eq!(r.unwrap_err(), ConfigError::MissingUsername);
    let r = Config::build(
        None,
        None,
        None,
        None,
        Some("admin".to_string()),
        None,
        None,
        None,
    );
    assert_eq!(r.unwrap_err(), ConfigError::MissingPassword);
}

#[test]
fn config_keeps_given_values() {
    let c = Config::build(
        Some("127.0.0.1".to_string()),
        Some(8080),
        Some("10.1.1.1".to_string()),
        Some(8729),
        Some("admin".to_string()),
        Some("secret".to_string()),
        Some("9.9.9.9".to_string()),
        Some("my-marker".to_string()),
    )
    .unwrap();
    assert_eq!(c.host, "127.0.0.1");
    assert_eq!(c.port, 8080);
    assert_eq!(c.mikrotik_host, "10.1.1.1");
    assert_eq!(c.mikrotik_port, 8729);
    assert_eq!(c.custom_dns, "9.9.9.9");
    assert_eq!(c.app_comment, "my-marker");
}

#[test]
fn header_lookup_accepts_both_spellings_first_match_wins() {
    let headers = vec![
        HttpHeader { name: "Host".to_string(), value: "example".to_string() },
        HttpHeader { name: "x-real-ip".to_string(), value: "10.0.0.7".to_string() },
        HttpHeader { name: "X-Real-IP".to_string(), value: "10.0.0.8".to_string() },
    ];
    assert_eq!(get_custom_ip_from_headers(&headers), Some("10.0.0.7".to_string()));
    assert_eq!(get_custom_ip_from_headers(&Vec::new()), None);
}

#[test]
fn attr_lookup_first_match_wins_and_tolerates_missing_values() {
    let attrs = vec![
        attr("address", Some("10.0.0.50")),
        attr("comment", None),
        attr("address", Some("10.0.0.99")),
    ];
    assert_eq!(attr_value(&attrs, "address"), Some("10.0.0.50".to_string()));
    assert_eq!(attr_value(&attrs, "comment"), None);
    assert_eq!(attr_value(&attrs, "dynamic"), None);
}

#[test]
fn lease_from_attrs_reads_every_field() {
    let attrs = vec![
        attr(".id", Some("*1")),
        attr("address", Some("10.0.0.60")),
        attr("mac-address", Some("AA:BB:CC:DD:EE:FF")),
        attr("dynamic", Some("true")),
        attr("comment", Some("hello")),
        attr("dhcp-option", Some("dns-10-0-0-60")),
    ];
    let l = lease_from_attrs(7, &attrs);
    assert_eq!(l.id, 7);
    assert_eq!(l.address, "10.0.0.60");
    assert_eq!(l.mac_address.as_deref(), Some("AA:BB:CC:DD:EE:FF"));
    assert!(l.dynamic);
    assert_eq!(l.comment, "hello");
    assert_eq!(l.dns_option_name.as_deref(), Some("dns-10-0-0-60"));

    let bare = lease_from_attrs(0, &vec![attr("dynamic", Some("false"))]);
    assert_eq!(bare.address, "");
    assert_eq!(bare.comment, "");
    assert!(!bare.dynamic);
    assert_eq!(bare.mac_address, None);
    assert_eq!(bare.dns_option_name, None);
}

#[test]
fn option_from_attrs_reads_every_field() {
    let attrs = vec![
        attr("name", Some("dns-10-0-0-50")),
        attr("value", Some("'9.9.9.9'")),
        attr("comment", Some(MARKER)),
    ];
    let o = option_from_attrs(6, &attrs);
    assert_eq!(o.name, "dns-10-0-0-50");
    assert_eq!(o.code, 6);
    assert_eq!(o.value, "'9.9.9.9'");
    assert_eq!(o.comment, MARKER);
}

#[test]
fn terminal_error_maps_trap_and_fatal() {
    let trap = DeviceResponse::Trap("already have such entry".to_string());
    assert_eq!(
        terminal_error(&trap),
        Some(EngineError::DeviceRejected("already have such entry".to_string()))
    );
    let fatal = DeviceResponse::Fatal("connection closed".to_string());
    assert_eq!(
        terminal_error(&fatal),
        Some(EngineError::ChannelFailure("connection closed".to_string()))
    );
    assert_eq!(terminal_error(&DeviceResponse::Done), None);
    assert_eq!(terminal_error(&DeviceResponse::Reply(Vec::new())), None);
}

fn mk_lease(id: u64, address: &str, dynamic: bool, comment: &str, mac: Option<&str>) -> Lease {
    Lease {
        id,
        address: address.to_string(),
        mac_address: mac.map(|s| s.to_string()),
        dynamic,
        comment: comment.to_string(),
        dns_option_name: None,
    }
}

#[test]
fn decide_apply_prefers_managed_then_foreign_then_dynamic() {
    let leases = vec![
        mk_lease(1, "10.0.0.5", true, "", Some("AA:AA:AA:AA:AA:AA")),
        mk_lease(2, "10.0.0.5", false, MARKER, None),
    ];
    assert_eq!(
        decide_apply(&leases, "10.0.0.5", MARKER),
        ApplyDecision::UpdateManaged { id: 2 }
    );

    let leases = vec![mk_lease(3, "10.0.0.5", false, "other-tool", None)];
    assert_eq!(
        decide_apply(&leases, "10.0.0.5", MARKER),
        ApplyDecision::LeaseConflict { comment: "other-tool".to_string() }
    );

    let leases = vec![mk_lease(4, "10.0.0.5", true, "", Some("AA:BB:CC:DD:EE:FF"))];
    assert_eq!(
        decide_apply(&leases, "10.0.0.5", MARKER),
        ApplyDecision::CreateWithMac { mac: "AA:BB:CC:DD:EE:FF".to_string() }
    );

    let leases = vec![mk_lease(5, "10.0.0.6", false, MARKER, None)];
    assert_eq!(decide_apply(&leases, "10.0.0.5", MARKER), ApplyDecision::CreateFresh);
}

#[test]
fn decide_revert_reports_managed_foreign_or_nothing() {
    let mut managed = mk_lease(2, "10.0.0.5", false, MARKER, None);
    managed.dns_option_name = Some("dns-10-0-0-5".to_string());
    let leases = vec![managed];
    assert_eq!(
        decide_revert(&leases, "10.0.0.5", MARKER),
        RevertDecision::RemoveManaged {
            id: 2,
            dns_option_name: Some("dns-10-0-0-5".to_string())
        }
    );

    let leases = vec![mk_lease(3, "10.0.0.5", false, "other-tool", None)];
    assert_eq!(
        decide_revert(&leases, "10.0.0.5", MARKER),
        RevertDecision::RevertConflict { comment: "other-tool".to_string() }
    );

    assert_eq!(
        decide_revert(&Vec::new(), "10.0.0.5", MARKER),
        RevertDecision::NothingManaged
    );
}

#[test]
fn create_lease_rejects_duplicate_static_address() {
    let mut dev = DeviceState::new();
    assert!(dev.create_lease("10.0.0.5", None, "dns-10-0-0-5", MARKER).is_ok());
    let r = dev.create_lease("10.0.0.5", None, "dns-10-0-0-5", MARKER);
    assert!(matches!(r, Err(EngineError::DeviceRejected(_))));
    assert_eq!(dev.leases.len(), 1);
}

#[test]
fn update_lease_rejects_unknown_id_and_edits_known_one() {
    let mut dev = DeviceState::new();
    let id = dev.create_lease("10.0.0.5", None, "dns-10-0-0-5", MARKER).unwrap();
    assert!(matches!(
        dev.update_lease(id + 1, None, Some("x")),
        Err(EngineError::DeviceRejected(_))
    ));
    assert!(dev.update_lease(id, Some("dns-other"), None).is_ok());
    assert_eq!(dev.leases[0].dns_option_name.as_deref(), Some("dns-other"));
    assert_eq!(dev.leases[0].comment, MARKER);
}

#[test]
fn remove_lease_tolerates_absence() {
    let mut dev = DeviceState::new();
    let id = dev.create_lease("10.0.0.5", None, "dns-10-0-0-5", MARKER).unwrap();
    dev.remove_lease(id + 7);
    assert_eq!(dev.leases.len(), 1);
    dev.remove_lease(id);
    assert_eq!(dev.leases.len(), 0);
}

#[test]
fn convert_dynamic_to_static_promotes_the_lease() {
    let mut dev = DeviceState::new();
    dev.leases.push(mk_lease(0, "10.0.0.5", true, "", None));
    dev.next_id = 1;
    assert!(dev.convert_dynamic_to_static(0).is_ok());
    assert!(!dev.leases[0].dynamic);
    assert!(matches!(
        dev.convert_dynamic_to_static(9),
        Err(EngineError::DeviceRejected(_))
    ));
}

#[test]
fn ensure_option_updates_ours_and_claims_unmanaged() {
    let mut dev = DeviceState::new();
    assert!(dev.ensure_option("dns-10-0-0-5", 6, "'8.8.8.8'", MARKER).is_ok());
    assert!(dev.ensure_option("dns-10-0-0-5", 6, "'9.9.9.9'", MARKER).is_ok());
    assert_eq!(dev.options.len(), 1);
    assert_eq!(dev.options[0].value, "'9.9.9.9'");
    assert_eq!(dev.options[0].comment, MARKER);

    let mut dev = DeviceState::new();
    assert!(dev.ensure_option("dns-10-0-0-6", 6, "'1.1.1.1'", "").is_ok());
    assert_eq!(dev.options[0].comment, "");
    assert!(dev.ensure_option("dns-10-0-0-6", 6, "'9.9.9.9'", MARKER).is_ok());
    assert_eq!(dev.options[0].value, "'9.9.9.9'");
    assert_eq!(dev.options[0].comment, MARKER);
}

#[test]
fn ensure_option_refuses_foreign_record() {
    let mut dev = DeviceState::new();
    assert!(dev.ensure_option("dns-10-0-0-5", 6, "'1.1.1.1'", "other-tool").is_ok());
    let r = dev.ensure_option("dns-10-0-0-5", 6, "'9.9.9.9'", MARKER);
    match r {
        Err(EngineError::Conflict(c)) => assert_eq!(c, "other-tool"),
        other => panic!("expected a conflict, got {:?}", other),
    }
    assert_eq!(dev.options[0].value, "'1.1.1.1'");
    assert_eq!(dev.options[0].comment, "other-tool");
}

#[test]
fn remove_option_tolerates_absence() {
    let mut dev = DeviceState::new();
    assert!(dev.ensure_option("dns-10-0-0-5", 6, "'9.9.9.9'", MARKER).is_ok());
    dev.remove_option("dns-unknown");
    assert_eq!(dev.options.len(), 1);
    dev.remove_option("dns-10-0-0-5");
    assert_eq!(dev.options.len(), 0);
}

#[test]
fn find_by_address_accepts_exact_matches_only() {
    let mut dev = DeviceState::new();
    dev.leases.push(mk_lease(0, "10.0.0.50", false, "", None));
    dev.next_id = 1;
    assert!(dev.find_by_address("10.0.0.5").is_none());
    let l = dev.find_by_address("10.0.0.50").unwrap();
    assert_eq!(l.id, 0);
    assert!(dev.find_managed_by_address("10.0.0.50", MARKER).is_none());
}
