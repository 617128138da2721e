//! Lease and option repositories: the read, create, update, and delete
//! operations the engine composes, specified as transitions of the device
//! state.

use vstd::prelude::*;
use crate::decide::{find_id_idx, find_managed_idx, find_opt_idx, find_exact_idx, find_static_idx};
use crate::errors::{res_matches, EngineError, ErrV};
use crate::model::{
    lease_views, lemma_lease_views_push, lemma_lease_views_remove, lemma_lease_views_set,
    lemma_option_views_push, lemma_option_views_remove, lemma_option_views_set, option_views,
    p_exact, p_lease_id, p_managed, p_opt_name, p_static_at, DeviceState, DeviceV, DnsOption,
    Lease, LeaseV, OptV,
};
use crate::ownership::{classify, classify_spec, Ownership};
use crate::seq_find::first_idx;
use crate::strutil::opt_ref_view;

verus! {

/// The device's message when a static lease for the address already exists.
pub open spec fn msg_duplicate_address() -> Seq<char> {
    "failure: already have static lease with this address"@
}

/// The device's message when it has run out of lease identifiers.
pub open spec fn msg_ids_exhausted() -> Seq<char> {
    "failure: no free lease identifier"@
}

/// The device's message when no lease carries the given identifier.
pub open spec fn msg_no_such_lease() -> Seq<char> {
    "failure: no such lease"@
}

/// Whether an executable result carrying a lease identifier agrees with a
/// specification-level one.
pub open spec fn res_id_matches(r: Result<u64, EngineError>, s: Result<u64, ErrV>) -> bool {
    match r {
        Result::Ok(id) => s matches Result::Ok(sid) && id == sid,
        Result::Err(e) => s matches Result::Err(ev) && e@ == ev,
    }
}

/// The lease a creation adds: static, commented, already linked to its option.
pub open spec fn created_lease(
    d: DeviceV,
    addr: Seq<char>,
    mac: Option<Seq<char>>,
    name: Seq<char>,
    comment: Seq<char>,
) -> LeaseV {
    LeaseV {
        id: d.next_id,
        address: addr,
        mac_address: mac,
        dynamic: false,
        comment: comment,
        dns_option_name: Option::Some(name),
    }
}

/// Creating a static lease: the device rejects a duplicate static address or
/// an exhausted identifier space; otherwise the lease is appended and the next
/// identifier advances.
pub open spec fn create_lease_spec(
    d: DeviceV,
    addr: Seq<char>,
    mac: Option<Seq<char>>,
    name: Seq<char>,
    comment: Seq<char>,
) -> (DeviceV, Result<u64, ErrV>) {
    if first_idx(d.leases, p_static_at(addr)) != -1 {
        (d, Result::Err(ErrV::DeviceRejected(msg_duplicate_address())))
    } else if d.next_id == u64::MAX {
        (d, Result::Err(ErrV::DeviceRejected(msg_ids_exhausted())))
    } else {
        (
            DeviceV {
                leases: d.leases.push(created_lease(d, addr, mac, name, comment)),
                next_id: (d.next_id + 1) as u64,
                ..d
            },
            Result::Ok(d.next_id),
        )
    }
}

/// Updating the option link and/or comment of the lease with the given
/// identifier; the device rejects an unknown identifier.
pub open spec fn update_lease_spec(
    d: DeviceV,
    id: u64,
    name: Option<Seq<char>>,
    comment: Option<Seq<char>>,
) -> (DeviceV, Result<(), ErrV>) {
    let i = first_idx(d.leases, p_lease_id(id));
    if i == -1 {
        (d, Result::Err(ErrV::DeviceRejected(msg_no_such_lease())))
    } else {
        let l0 = d.leases[i];
        let l1 = LeaseV {
            dns_option_name: if name is Some {
                name
            } else {
                l0.dns_option_name
            },
            comment: if comment is Some {
                comment->Some_0
            } else {
                l0.comment
            },
            ..l0
        };
        (DeviceV { leases: d.leases.update(i, l1), ..d }, Result::Ok(()))
    }
}

/// Removing the lease with the given identifier; an absent lease is tolerated
/// and leaves the state unchanged.
pub open spec fn remove_lease_spec(d: DeviceV, id: u64) -> DeviceV {
    let i = first_idx(d.leases, p_lease_id(id));
    if i == -1 {
        d
    } else {
        DeviceV { leases: d.leases.remove(i), ..d }
    }
}

/// Promoting the lease with the given identifier from dynamic to static; the
/// device rejects an unknown identifier.
pub open spec fn convert_lease_spec(d: DeviceV, id: u64) -> (DeviceV, Result<(), ErrV>) {
    let i = first_idx(d.leases, p_lease_id(id));
    if i == -1 {
        (d, Result::Err(ErrV::DeviceRejected(msg_no_such_lease())))
    } else {
        let l1 = LeaseV { dynamic: false, ..d.leases[i] };
        (DeviceV { leases: d.leases.update(i, l1), ..d }, Result::Ok(()))
    }
}

/// The create-or-update upsert of an option record: a new name is created
/// with the given comment; an existing record owned by another manager is a
/// conflict; one of ours gets a fresh value; an unmanaged one gets the value
/// and, since its comment is unset, the comment too.
pub open spec fn ensure_option_spec(
    d: DeviceV,
    name: Seq<char>,
    code: u64,
    value: Seq<char>,
    comment: Seq<char>,
) -> (DeviceV, Result<(), ErrV>) {
    let i = first_idx(d.options, p_opt_name(name));
    if i == -1 {
        (
            DeviceV {
                options: d.options.push(OptV { name, code, value, comment }),
                ..d
            },
            Result::Ok(()),
        )
    } else {
        let o = d.options[i];
        if classify_spec(o.comment, comment) == Ownership::ManagedByOther {
            (d, Result::Err(ErrV::Conflict(o.comment)))
        } else if classify_spec(o.comment, comment) == Ownership::ManagedByUs {
            (DeviceV { options: d.options.update(i, OptV { value, ..o }), ..d }, Result::Ok(()))
        } else {
            (
                DeviceV {
                    options: d.options.update(i, OptV { value, comment, ..o }),
                    ..d
                },
                Result::Ok(()),
            )
        }
    }
}

/// Removing the option record with the given name; an absent record is
/// tolerated and leaves the state unchanged.
pub open spec fn remove_option_spec(d: DeviceV, name: Seq<char>) -> DeviceV {
    let i = first_idx(d.options, p_opt_name(name));
    if i == -1 {
        d
    } else {
        DeviceV { options: d.options.remove(i), ..d }
    }
}

impl DeviceState {
    /// First lease whose address exactly equals the query; candidates the
    /// device matched loosely are not accepted.
    pub fn find_by_address(&self, address: &str) -> (r: Option<Lease>)
        ensures
            ({
                let i = first_idx(lease_views(self.leases@), p_exact(address@));
                match r {
                    Option::Some(l) => i != -1 && l@ == lease_views(self.leases@)[i],
                    Option::None => i == -1,
                }
            }),
    {
        match find_exact_idx(&self.leases, address) {
            Option::Some(i) => Option::Some(self.leases[i].clone()),
            Option::None => Option::None,
        }
    }

    /// First exact match that this engine owns.
    pub fn find_managed_by_address(&self, address: &str, marker: &str) -> (r: Option<Lease>)
        ensures
            ({
                let i = first_idx(lease_views(self.leases@), p_managed(address@, marker@));
                match r {
                    Option::Some(l) => i != -1 && l@ == lease_views(self.leases@)[i],
                    Option::None => i == -1,
                }
            }),
    {
        match find_managed_idx(&self.leases, address, marker) {
            Option::Some(i) => Option::Some(self.leases[i].clone()),
            Option::None => Option::None,
        }
    }

    /// Creates a new static lease carrying the comment and the option link,
    /// returning the identifier the device assigned.
    pub fn create_lease(
        &mut self,
        address: &str,
        mac: Option<&str>,
        dns_option_name: &str,
        comment: &str,
    ) -> (r: Result<u64, EngineError>)
        ensures
            final(self)@ == create_lease_spec(
                old(self)@,
                address@,
                opt_ref_view(mac),
                dns_option_name@,
                comment@,
            ).0,
            res_id_matches(
                r,
                create_lease_spec(
                    old(self)@,
                    address@,
                    opt_ref_view(mac),
                    dns_option_name@,
                    comment@,
                ).1,
            ),
            old(self)@.wf() ==> final(self)@.wf(),
    {
        match find_static_idx(&self.leases, address) {
            Option::Some(_) => Result::Err(
                EngineError::DeviceRejected(
                    "failure: already have static lease with this address".to_owned(),
                ),
            ),
            Option::None => {
                if self.next_id == u64::MAX {
                    Result::Err(
                        EngineError::DeviceRejected("failure: no free lease identifier".to_owned()),
                    )
                } else {
                    let id = self.next_id;
                    let mac_owned: Option<String> = match mac {
                        Option::Some(s) => Option::Some(s.to_owned()),
                        Option::None => Option::None,
                    };
                    let l = Lease {
                        id,
                        address: address.to_owned(),
                        mac_address: mac_owned,
                        dynamic: false,
                        comment: comment.to_owned(),
                        dns_option_name: Option::Some(dns_option_name.to_owned()),
                    };
                    proof {
                        lemma_lease_views_push(self.leases@, l);
                    }
                    self.leases.push(l);
                    self.next_id = id + 1;
                    proof {
                        assert(self@ =~~= create_lease_spec(
                            old(self)@,
                            address@,
                            opt_ref_view(mac),
                            dns_option_name@,
                            comment@,
                        ).0);
                    }
                    Result::Ok(id)
                }
            },
        }
    }

    /// Partial update of option link and/or comment on the lease with the
    /// given identifier.
    pub fn update_lease(
        &mut self,
        id: u64,
        dns_option_name: Option<&str>,
        comment: Option<&str>,
    ) -> (r: Result<(), EngineError>)
        ensures
            final(self)@ == update_lease_spec(
                old(self)@,
                id,
                opt_ref_view(dns_option_name),
                opt_ref_view(comment),
            ).0,
            res_matches(
                r,
                update_lease_spec(
                    old(self)@,
                    id,
                    opt_ref_view(dns_option_name),
                    opt_ref_view(comment),
                ).1,
            ),
    {
        match find_id_idx(&self.leases, id) {
            Option::None => Result::Err(
                EngineError::DeviceRejected("failure: no such lease".to_owned()),
            ),
            Option::Some(i) => {
                let mut l = self.leases.remove(i);
                match dns_option_name {
                    Option::Some(n) => {
                        l.dns_option_name = Option::Some(n.to_owned());
                    },
                    Option::None => {},
                }
                match comment {
                    Option::Some(c) => {
                        l.comment = c.to_owned();
                    },
                    Option::None => {},
                }
                proof {
                    lemma_lease_views_set(old(self).leases@, i as int, l);
                }
                self.leases.insert(i, l);
                proof {
                    assert(self@ =~~= update_lease_spec(
                        old(self)@,
                        id,
                        opt_ref_view(dns_option_name),
                        opt_ref_view(comment),
                    ).0);
                }
                Result::Ok(())
            },
        }
    }

    /// Removes the lease with the given identifier, tolerating its absence.
    pub fn remove_lease(&mut self, id: u64)
        ensures
            final(self)@ == remove_lease_spec(old(self)@, id),
    {
        match find_id_idx(&self.leases, id) {
            Option::None => {},
            Option::Some(i) => {
                proof {
                    lemma_lease_views_remove(self.leases@, i as int);
                }
                self.leases.remove(i);
                proof {
                    assert(self@ =~~= remove_lease_spec(old(self)@, id));
                }
            },
        }
    }

    /// Promotes the lease with the given identifier to static. The device
    /// does not allow comment or option edits on a dynamic lease, so this must
    /// complete before any update of the same lease.
    pub fn convert_dynamic_to_static(&mut self, id: u64) -> (r: Result<(), EngineError>)
        ensures
            final(self)@ == convert_lease_spec(old(self)@, id).0,
            res_matches(r, convert_lease_spec(old(self)@, id).1),
    {
        match find_id_idx(&self.leases, id) {
            Option::None => Result::Err(
                EngineError::DeviceRejected("failure: no such lease".to_owned()),
            ),
            Option::Some(i) => {
                let mut l = self.leases.remove(i);
                l.dynamic = false;
                proof {
                    lemma_lease_views_set(old(self).leases@, i as int, l);
                }
                self.leases.insert(i, l);
                proof {
                    assert(self@ =~~= convert_lease_spec(old(self)@, id).0);
                }
                Result::Ok(())
            },
        }
    }

    /// Idempotent create-or-update of an option record: the device has no
    /// native upsert, so an existing name falls back to an update of the value
    /// and, where the comment is unset, the comment; a record owned by another
    /// manager is refused.
    pub fn ensure_option(&mut self, name: &str, code: u64, value: &str, comment: &str) -> (r:
        Result<(), EngineError>)
        ensures
            final(self)@ == ensure_option_spec(old(self)@, name@, code, value@, comment@).0,
            res_matches(r, ensure_option_spec(old(self)@, name@, code, value@, comment@).1),
    {
        match find_opt_idx(&self.options, name) {
            Option::None => {
                let o = DnsOption {
                    name: name.to_owned(),
                    code,
                    value: value.to_owned(),
                    comment: comment.to_owned(),
                };
                proof {
                    lemma_option_views_push(self.options@, o);
                }
                self.options.push(o);
                proof {
                    assert(self@ =~~= ensure_option_spec(
                        old(self)@,
                        name@,
                        code,
                        value@,
                        comment@,
                    ).0);
                }
                Result::Ok(())
            },
            Option::Some(i) => {
                let owner = classify(self.options[i].comment.as_str(), comment);
                if owner == Ownership::ManagedByOther {
                    Result::Err(EngineError::Conflict(self.options[i].comment.clone()))
                } else {
                    let mut o = self.options.remove(i);
                    o.value = value.to_owned();
                    if owner == Ownership::Unmanaged {
                        o.comment = comment.to_owned();
                    }
                    proof {
                        lemma_option_views_set(old(self).options@, i as int, o);
                    }
                    self.options.insert(i, o);
                    proof {
                        assert(self@ =~~= ensure_option_spec(
                            old(self)@,
                            name@,
                            code,
                            value@,
                            comment@,
                        ).0);
                    }
                    Result::Ok(())
                }
            },
        }
    }

    /// First option record with the given name.
    pub fn find_option_by_name(&self, name: &str) -> (r: Option<DnsOption>)
        ensures
            ({
                let i = first_idx(option_views(self.options@), p_opt_name(name@));
                match r {
                    Option::Some(o) => i != -1 && o@ == option_views(self.options@)[i],
                    Option::None => i == -1,
                }
            }),
    {
        match find_opt_idx(&self.options, name) {
            Option::Some(i) => Option::Some(self.options[i].clone()),
            Option::None => Option::None,
        }
    }

    /// Removes the option record with the given name, tolerating its absence.
    pub fn remove_option(&mut self, name: &str)
        ensures
            final(self)@ == remove_option_spec(old(self)@, name@),
    {
        match find_opt_idx(&self.options, name) {
            Option::None => {},
            Option::Some(i) => {
                proof {
                    lemma_option_views_remove(self.options@, i as int);
                }
                self.options.remove(i);
                proof {
                    assert(self@ =~~= remove_option_spec(old(self)@, name@));
                }
            },
        }
    }
}

} // verus!
