//! The reconciliation engine: the three client-facing operations over a fresh
//! read of the device's records. Queries never mutate; apply is an idempotent
//! upsert; revert is a tolerant teardown. Neither ever touches a record owned
//! by another manager.

use vstd::prelude::*;
use crate::decide::{
    find_dyn_mac_idx, find_exact_idx, find_foreign_idx, find_managed_idx, find_opt_idx,
};
use crate::errors::{res_matches, EngineError, ErrV};
use crate::model::{
    lease_views, lemma_lease_views_remove, lemma_lease_views_set, lemma_option_views_remove,
    option_views, p_dyn_mac, p_exact, p_foreign, p_managed, p_opt_name, DeviceState, DeviceV,
    LeaseV,
};
use crate::naming::{
    option_name_for, option_name_spec, quote_value, quoted_spec, DNS_OPTION_CODE,
};
use crate::ownership::{classify, classify_spec, Ownership};
use crate::repo::{create_lease_spec, ensure_option_spec};
use crate::seq_find::first_idx;
use crate::strutil::{clone_opt_string, opt_ref_view, opt_view};

verus! {

/// What a DNS query for a client returns. Absence of configuration is a valid
/// state, not an error.
#[derive(Debug, PartialEq, Eq)]
pub enum DnsAnswer {
    /// The client's lease references an option record; this is its value.
    OptionValue(String),
    /// No lease matched; the device's global DNS configuration applies.
    GlobalDns(String),
    /// Nothing resolves: no option reference and no global configuration.
    NoneConfigured,
}

/// Mathematical view of a query answer.
#[verifier::ext_equal]
pub enum AnswerV {
    OptionValue(Seq<char>),
    GlobalDns(Seq<char>),
    NoneConfigured,
}

impl View for DnsAnswer {
    type V = AnswerV;

    open spec fn view(&self) -> AnswerV {
        match self {
            DnsAnswer::OptionValue(v) => AnswerV::OptionValue(v@),
            DnsAnswer::GlobalDns(v) => AnswerV::GlobalDns(v@),
            DnsAnswer::NoneConfigured => AnswerV::NoneConfigured,
        }
    }
}

/// The query result as a function of the device state: the first exact lease
/// match wins; its option reference, if any, is resolved to the option's
/// value; with no lease match the global configuration applies.
pub open spec fn query_spec(d: DeviceV, addr: Seq<char>) -> AnswerV {
    let i = first_idx(d.leases, p_exact(addr));
    if i != -1 {
        if d.leases[i].dns_option_name is Some {
            let oi = first_idx(d.options, p_opt_name(d.leases[i].dns_option_name->Some_0));
            if oi != -1 {
                AnswerV::OptionValue(d.options[oi].value)
            } else {
                AnswerV::NoneConfigured
            }
        } else {
            AnswerV::NoneConfigured
        }
    } else {
        if d.global_dns is Some {
            AnswerV::GlobalDns(d.global_dns->Some_0)
        } else {
            AnswerV::NoneConfigured
        }
    }
}

/// The apply transition: ensure the option record derived from the address,
/// then reconcile the lease records — update the managed match, refuse on a
/// foreign match, otherwise create a static lease, seeded with the hardware
/// address of an unmanaged dynamic match when one exists.
pub open spec fn apply_spec(
    d: DeviceV,
    addr: Seq<char>,
    value: Seq<char>,
    marker: Seq<char>,
) -> (DeviceV, Result<(), ErrV>) {
    let name = option_name_spec(addr);
    let e = ensure_option_spec(d, name, DNS_OPTION_CODE, quoted_spec(value), marker);
    if e.1 is Err {
        e
    } else {
        let d1 = e.0;
        let m = first_idx(d1.leases, p_managed(addr, marker));
        if m != -1 {
            let l1 = LeaseV { dns_option_name: Option::Some(name), ..d1.leases[m] };
            (DeviceV { leases: d1.leases.update(m, l1), ..d1 }, Result::Ok(()))
        } else {
            let f = first_idx(d1.leases, p_foreign(addr, marker));
            if f != -1 {
                (d1, Result::Err(ErrV::Conflict(d1.leases[f].comment)))
            } else {
                let dm = first_idx(d1.leases, p_dyn_mac(addr, marker));
                let mac = if dm != -1 {
                    d1.leases[dm].mac_address
                } else {
                    Option::None
                };
                let c = create_lease_spec(d1, addr, mac, name, marker);
                (
                    c.0,
                    if c.1 is Ok {
                        Result::Ok(())
                    } else {
                        Result::Err(c.1->Err_0)
                    },
                )
            }
        }
    }
}

/// The revert transition: remove the managed lease match and its linked
/// option record, tolerating an absent option; refuse on a foreign lease or a
/// foreign linked option; succeed without mutation when nothing is managed.
pub open spec fn revert_spec(d: DeviceV, addr: Seq<char>, marker: Seq<char>) -> (
    DeviceV,
    Result<(), ErrV>,
) {
    let m = first_idx(d.leases, p_managed(addr, marker));
    if m == -1 {
        let f = first_idx(d.leases, p_foreign(addr, marker));
        if f != -1 {
            (d, Result::Err(ErrV::Conflict(d.leases[f].comment)))
        } else {
            (d, Result::Ok(()))
        }
    } else {
        let l = d.leases[m];
        if l.dns_option_name is None {
            (DeviceV { leases: d.leases.remove(m), ..d }, Result::Ok(()))
        } else {
            let oi = first_idx(d.options, p_opt_name(l.dns_option_name->Some_0));
            if oi == -1 {
                (DeviceV { leases: d.leases.remove(m), ..d }, Result::Ok(()))
            } else if classify_spec(d.options[oi].comment, marker) == Ownership::ManagedByOther {
                (d, Result::Err(ErrV::Conflict(d.options[oi].comment)))
            } else {
                (
                    DeviceV {
                        leases: d.leases.remove(m),
                        options: d.options.remove(oi),
                        ..d
                    },
                    Result::Ok(()),
                )
            }
        }
    }
}

/// The current DNS for a client: the value of the option its lease references,
/// else the device's global DNS, else the sentinel answer. Read-only; needs no
/// ownership check.
pub fn get_current_dns(dev: &DeviceState, client_ip: &str) -> (r: DnsAnswer)
    ensures
        r@ == query_spec(dev@, client_ip@),
{
    match find_exact_idx(&dev.leases, client_ip) {
        Option::Some(i) => {
            match &dev.leases[i].dns_option_name {
                Option::Some(n) => {
                    match find_opt_idx(&dev.options, n.as_str()) {
                        Option::Some(oi) => DnsAnswer::OptionValue(dev.options[oi].value.clone()),
                        Option::None => DnsAnswer::NoneConfigured,
                    }
                },
                Option::None => DnsAnswer::NoneConfigured,
            }
        },
        Option::None => {
            match &dev.global_dns {
                Option::Some(g) => DnsAnswer::GlobalDns(g.clone()),
                Option::None => DnsAnswer::NoneConfigured,
            }
        },
    }
}

/// Applies a custom DNS server for a client: an idempotent upsert of the
/// derived option record and of a static lease linking to it.
pub fn set_dns(dev: &mut DeviceState, client_ip: &str, dns_server: &str, marker: &str) -> (r:
    Result<(), EngineError>)
    ensures
        final(dev)@ == apply_spec(old(dev)@, client_ip@, dns_server@, marker@).0,
        res_matches(r, apply_spec(old(dev)@, client_ip@, dns_server@, marker@).1),
{
    let name = option_name_for(client_ip);
    let value = quote_value(dns_server);
    let r1 = dev.ensure_option(name.as_str(), DNS_OPTION_CODE, value.as_str(), marker);
    match r1 {
        Result::Err(e) => Result::Err(e),
        Result::Ok(()) => {
            match find_managed_idx(&dev.leases, client_ip, marker) {
                Option::Some(m) => {
                    let ghost leases1 = dev.leases@;
                    let mut l = dev.leases.remove(m);
                    l.dns_option_name = Option::Some(name);
                    proof {
                        lemma_lease_views_set(leases1, m as int, l);
                    }
                    dev.leases.insert(m, l);
                    proof {
                        assert(dev@ =~~= apply_spec(
                            old(dev)@,
                            client_ip@,
                            dns_server@,
                            marker@,
                        ).0);
                    }
                    Result::Ok(())
                },
                Option::None => {
                    match find_foreign_idx(&dev.leases, client_ip, marker) {
                        Option::Some(f) => Result::Err(
                            EngineError::Conflict(dev.leases[f].comment.clone()),
                        ),
                        Option::None => {
                            let mac: Option<String> = match find_dyn_mac_idx(
                                &dev.leases,
                                client_ip,
                                marker,
                            ) {
                                Option::Some(dm) => clone_opt_string(
                                    &dev.leases[dm].mac_address,
                                ),
                                Option::None => Option::None,
                            };
                            let mac_ref: Option<&str> = match &mac {
                                Option::Some(s) => Option::Some(s.as_str()),
                                Option::None => Option::None,
                            };
                            proof {
                                assert(opt_ref_view(mac_ref) == opt_view(mac));
                            }
                            let r2 = dev.create_lease(client_ip, mac_ref, name.as_str(), marker);
                            proof {
                                assert(dev@ =~~= apply_spec(
                                    old(dev)@,
                                    client_ip@,
                                    dns_server@,
                                    marker@,
                                ).0);
                            }
                            match r2 {
                                Result::Ok(_) => Result::Ok(()),
                                Result::Err(e) => Result::Err(e),
                            }
                        },
                    }
                },
            }
        },
    }
}

/// Reverts a client to default DNS: removes the managed lease and its linked
/// option record. A client with nothing managed is already reverted, which is
/// a success, not an error.
pub fn remove_custom_dns(dev: &mut DeviceState, client_ip: &str, marker: &str) -> (r: Result<
    (),
    EngineError,
>)
    ensures
        final(dev)@ == revert_spec(old(dev)@, client_ip@, marker@).0,
        res_matches(r, revert_spec(old(dev)@, client_ip@, marker@).1),
{
    match find_managed_idx(&dev.leases, client_ip, marker) {
        Option::None => {
            match find_foreign_idx(&dev.leases, client_ip, marker) {
                Option::Some(f) => Result::Err(
                    EngineError::Conflict(dev.leases[f].comment.clone()),
                ),
                Option::None => Result::Ok(()),
            }
        },
        Option::Some(m) => {
            let name = clone_opt_string(&dev.leases[m].dns_option_name);
            match name {
                Option::None => {
                    proof {
                        lemma_lease_views_remove(dev.leases@, m as int);
                    }
                    dev.leases.remove(m);
                    proof {
                        assert(dev@ =~~= revert_spec(old(dev)@, client_ip@, marker@).0);
                    }
                    Result::Ok(())
                },
                Option::Some(n) => {
                    match find_opt_idx(&dev.options, n.as_str()) {
                        Option::None => {
                            proof {
                                lemma_lease_views_remove(dev.leases@, m as int);
                            }
                            dev.leases.remove(m);
                            proof {
                                assert(dev@ =~~= revert_spec(old(dev)@, client_ip@, marker@).0);
                            }
                            Result::Ok(())
                        },
                        Option::Some(oi) => {
                            if classify(dev.options[oi].comment.as_str(), marker)
                                == Ownership::ManagedByOther {
                                Result::Err(
                                    EngineError::Conflict(dev.options[oi].comment.clone()),
                                )
                            } else {
                                proof {
                                    lemma_lease_views_remove(dev.leases@, m as int);
                                    lemma_option_views_remove(dev.options@, oi as int);
                                }
                                dev.leases.remove(m);
                                dev.options.remove(oi);
                                proof {
                                    assert(dev@ =~~= revert_spec(
                                        old(dev)@,
                                        client_ip@,
                                        marker@,
                                    ).0);
                                }
                                Result::Ok(())
                            }
                        },
                    }
                },
            }
        },
    }
}

} // verus!
