//! The device-state model: lease and option records as the device holds them.
//!
//! The engine is specified and verified against this model. Each record kind
//! has an executable form (plain strings and integers) and a mathematical view
//! used in contracts.

use vstd::prelude::*;
use crate::ownership::{classify_spec, Ownership};
use crate::strutil::opt_view;

verus! {

/// One DHCP address assignment on the device.
#[derive(Debug, PartialEq, Eq)]
pub struct Lease {
    /// Device-assigned identifier, stable until the lease is removed.
    pub id: u64,
    /// IPv4 address, the reconciliation key for all operations.
    pub address: String,
    /// Optional hardware address, carried over when a dynamic lease's identity
    /// is copied into a new static lease.
    pub mac_address: Option<String>,
    /// Dynamic leases are ephemeral and never mutated in place.
    pub dynamic: bool,
    /// Free-text ownership marker.
    pub comment: String,
    /// Optional back-reference to an option record by name.
    pub dns_option_name: Option<String>,
}

/// Mathematical view of a lease.
#[verifier::ext_equal]
pub struct LeaseV {
    pub id: u64,
    pub address: Seq<char>,
    pub mac_address: Option<Seq<char>>,
    pub dynamic: bool,
    pub comment: Seq<char>,
    pub dns_option_name: Option<Seq<char>>,
}

impl View for Lease {
    type V = LeaseV;

    open spec fn view(&self) -> LeaseV {
        LeaseV {
            id: self.id,
            address: self.address@,
            mac_address: opt_view(self.mac_address),
            dynamic: self.dynamic,
            comment: self.comment@,
            dns_option_name: opt_view(self.dns_option_name),
        }
    }
}

impl Clone for Lease {
    fn clone(&self) -> (r: Self)
        ensures
            r@ == self@,
    {
        Lease {
            id: self.id,
            address: self.address.clone(),
            mac_address: crate::strutil::clone_opt_string(&self.mac_address),
            dynamic: self.dynamic,
            comment: self.comment.clone(),
            dns_option_name: crate::strutil::clone_opt_string(&self.dns_option_name),
        }
    }
}

/// One named DHCP option record usable as a DNS override.
#[derive(Debug, PartialEq, Eq)]
pub struct DnsOption {
    /// Derived deterministically from the client address; doubles as the
    /// identifier and idempotence key.
    pub name: String,
    /// Numeric DHCP option code.
    pub code: u64,
    /// The DNS server to hand out, quoted per the device's convention.
    pub value: String,
    /// Free-text ownership marker, same semantics as on a lease.
    pub comment: String,
}

/// Mathematical view of an option record.
#[verifier::ext_equal]
pub struct OptV {
    pub name: Seq<char>,
    pub code: u64,
    pub value: Seq<char>,
    pub comment: Seq<char>,
}

impl View for DnsOption {
    type V = OptV;

    open spec fn view(&self) -> OptV {
        OptV {
            name: self.name@,
            code: self.code,
            value: self.value@,
            comment: self.comment@,
        }
    }
}

impl Clone for DnsOption {
    fn clone(&self) -> (r: Self)
        ensures
            r@ == self@,
    {
        DnsOption {
            name: self.name.clone(),
            code: self.code,
            value: self.value.clone(),
            comment: self.comment.clone(),
        }
    }
}

/// The device's records relevant to DNS reconciliation. There is no cache:
/// this is always a fresh read of the device's own state.
#[derive(Debug, PartialEq, Eq)]
pub struct DeviceState {
    pub leases: Vec<Lease>,
    pub options: Vec<DnsOption>,
    /// The device's global DNS configuration, if any.
    pub global_dns: Option<String>,
    /// The next identifier the device will assign to a created lease.
    pub next_id: u64,
}

/// Mathematical view of the device state.
#[verifier::ext_equal]
pub struct DeviceV {
    pub leases: Seq<LeaseV>,
    pub options: Seq<OptV>,
    pub global_dns: Option<Seq<char>>,
    pub next_id: u64,
}

/// Views of a sequence of leases, element by element.
pub open spec fn lease_views(s: Seq<Lease>) -> Seq<LeaseV> {
    Seq::new(s.len(), |i: int| s[i]@)
}

/// Views of a sequence of option records, element by element.
pub open spec fn option_views(s: Seq<DnsOption>) -> Seq<OptV> {
    Seq::new(s.len(), |i: int| s[i]@)
}

impl View for DeviceState {
    type V = DeviceV;

    open spec fn view(&self) -> DeviceV {
        DeviceV {
            leases: lease_views(self.leases@),
            options: option_views(self.options@),
            global_dns: opt_view(self.global_dns),
            next_id: self.next_id,
        }
    }
}

impl DeviceV {
    /// The identifiers the device hands out are distinct and below the next
    /// one to be assigned.
    pub open spec fn wf(self) -> bool {
        &&& forall|i: int| 0 <= i < self.leases.len() ==> #[trigger] self.leases[i].id < self.next_id
        &&& forall|i: int, j: int|
            0 <= i < j < self.leases.len()
                ==> #[trigger] self.leases[i].id != #[trigger] self.leases[j].id
    }
}

impl DeviceState {
    /// A device with no leases, no options, and no global DNS configured.
    pub fn new() -> (d: DeviceState)
        ensures
            d@.leases.len() == 0,
            d@.options.len() == 0,
            d@.global_dns is None,
            d@.next_id == 0,
            d@.wf(),
    {
        DeviceState { leases: Vec::new(), options: Vec::new(), global_dns: None, next_id: 0 }
    }
}

/// View of an optional option record.
pub open spec fn opt_record_view(o: Option<DnsOption>) -> Option<OptV> {
    match o {
        Option::Some(r) => Option::Some(r@),
        Option::None => Option::None,
    }
}

/// The device enforces unique option names: creating a second record under an
/// existing name traps.
pub open spec fn opt_names_unique(options: Seq<OptV>) -> bool {
    forall|i: int, j: int|
        0 <= i < j < options.len()
            ==> #[trigger] options[i].name != #[trigger] options[j].name
}

/// Appending a lease commutes with taking views.
pub proof fn lemma_lease_views_push(s: Seq<Lease>, x: Lease)
    ensures
        lease_views(s.push(x)) =~= lease_views(s).push(x@),
{
}

/// Removing a lease commutes with taking views.
pub proof fn lemma_lease_views_remove(s: Seq<Lease>, i: int)
    requires
        0 <= i < s.len(),
    ensures
        lease_views(s.remove(i)) =~= lease_views(s).remove(i),
{
}

/// Replacing a lease in place (a removal followed by an insertion at the same
/// index) is an update of the view sequence.
pub proof fn lemma_lease_views_set(s: Seq<Lease>, i: int, x: Lease)
    requires
        0 <= i < s.len(),
    ensures
        lease_views(s.remove(i).insert(i, x)) =~= lease_views(s).update(i, x@),
{
}

/// Appending an option record commutes with taking views.
pub proof fn lemma_option_views_push(s: Seq<DnsOption>, x: DnsOption)
    ensures
        option_views(s.push(x)) =~= option_views(s).push(x@),
{
}

/// Removing an option record commutes with taking views.
pub proof fn lemma_option_views_remove(s: Seq<DnsOption>, i: int)
    requires
        0 <= i < s.len(),
    ensures
        option_views(s.remove(i)) =~= option_views(s).remove(i),
{
}

/// Replacing an option record in place is an update of the view sequence.
pub proof fn lemma_option_views_set(s: Seq<DnsOption>, i: int, x: DnsOption)
    requires
        0 <= i < s.len(),
    ensures
        option_views(s.remove(i).insert(i, x)) =~= option_views(s).update(i, x@),
{
}

/// The record's address is exactly the queried one.
pub open spec fn p_exact(addr: Seq<char>) -> spec_fn(LeaseV) -> bool {
    |l: LeaseV| l.address == addr
}

/// An exact match that this engine owns.
pub open spec fn p_managed(addr: Seq<char>, marker: Seq<char>) -> spec_fn(LeaseV) -> bool {
    |l: LeaseV| l.address == addr && classify_spec(l.comment, marker) == Ownership::ManagedByUs
}

/// An exact match owned by another manager.
pub open spec fn p_foreign(addr: Seq<char>, marker: Seq<char>) -> spec_fn(LeaseV) -> bool {
    |l: LeaseV| l.address == addr && classify_spec(l.comment, marker) == Ownership::ManagedByOther
}

/// An unmanaged dynamic exact match that carries a hardware address, whose
/// identity can seed a new static lease.
pub open spec fn p_dyn_mac(addr: Seq<char>, marker: Seq<char>) -> spec_fn(LeaseV) -> bool {
    |l: LeaseV|
        l.address == addr && classify_spec(l.comment, marker) == Ownership::Unmanaged
            && l.dynamic && l.mac_address is Some
}

/// A static (not dynamic) record holding the given address, which blocks the
/// creation of another static lease for it.
pub open spec fn p_static_at(addr: Seq<char>) -> spec_fn(LeaseV) -> bool {
    |l: LeaseV| l.address == addr && !l.dynamic
}

/// The lease with the given identifier.
pub open spec fn p_lease_id(id: u64) -> spec_fn(LeaseV) -> bool {
    |l: LeaseV| l.id == id
}

/// The option record with the given name.
pub open spec fn p_opt_name(name: Seq<char>) -> spec_fn(OptV) -> bool {
    |o: OptV| o.name == name
}

} // verus!
