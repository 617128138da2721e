//! Pure decision logic over a fresh read of the device's lease records.
//!
//! These functions take the records a search returned and decide what the
//! apply and revert operations must do, without touching the device. The
//! transport loop performs the decided action and nothing else.

use vstd::prelude::*;
use crate::model::{
    lease_views, opt_record_view, option_views, p_dyn_mac, p_exact, p_foreign, p_lease_id,
    p_managed, p_opt_name, p_static_at, DnsOption, Lease,
};
use crate::ownership::{classify, classify_spec, Ownership};
use crate::seq_find::{first_idx, lemma_first_idx, lemma_first_idx_is, lemma_first_idx_none};
use crate::strutil::{clone_opt_string, opt_view, str_eq};

verus! {

/// Index of the first lease whose address is exactly the queried one.
pub fn find_exact_idx(leases: &Vec<Lease>, addr: &str) -> (r: Option<usize>)
    ensures
        match r {
            Option::Some(i) => i < leases@.len() && first_idx(
                lease_views(leases@),
                p_exact(addr@),
            ) == i as int,
            Option::None => first_idx(lease_views(leases@), p_exact(addr@)) == -1,
        },
{
    let ghost p = p_exact(addr@);
    let n = leases.len();
    let mut i: usize = 0;
    while i < n
        invariant
            i <= n,
            n == leases@.len(),
            p == p_exact(addr@),
            forall|j: int| 0 <= j < i ==> !p(#[trigger] lease_views(leases@)[j]),
        decreases n - i,
    {
        let hit = str_eq(leases[i].address.as_str(), addr);
        proof {
            assert(lease_views(leases@)[i as int] == leases@[i as int]@);
        }
        if hit {
            proof {
                lemma_first_idx_is(lease_views(leases@), p, i as int);
            }
            return Option::Some(i);
        }
        i = i + 1;
    }
    proof {
        lemma_first_idx_none(lease_views(leases@), p);
    }
    Option::None
}

/// Index of the first exact match that this engine owns.
pub fn find_managed_idx(leases: &Vec<Lease>, addr: &str, marker: &str) -> (r: Option<usize>)
    ensures
        match r {
            Option::Some(i) => i < leases@.len() && first_idx(
                lease_views(leases@),
                p_managed(addr@, marker@),
            ) == i as int,
            Option::None => first_idx(lease_views(leases@), p_managed(addr@, marker@)) == -1,
        },
{
    let ghost p = p_managed(addr@, marker@);
    let n = leases.len();
    let mut i: usize = 0;
    while i < n
        invariant
            i <= n,
            n == leases@.len(),
            p == p_managed(addr@, marker@),
            forall|j: int| 0 <= j < i ==> !p(#[trigger] lease_views(leases@)[j]),
        decreases n - i,
    {
        let hit = str_eq(leases[i].address.as_str(), addr) && classify(
            leases[i].comment.as_str(),
            marker,
        ) == Ownership::ManagedByUs;
        proof {
            assert(lease_views(leases@)[i as int] == leases@[i as int]@);
        }
        if hit {
            proof {
                lemma_first_idx_is(lease_views(leases@), p, i as int);
            }
            return Option::Some(i);
        }
        i = i + 1;
    }
    proof {
        lemma_first_idx_none(lease_views(leases@), p);
    }
    Option::None
}

/// Index of the first exact match owned by another manager.
pub fn find_foreign_idx(leases: &Vec<Lease>, addr: &str, marker: &str) -> (r: Option<usize>)
    ensures
        match r {
            Option::Some(i) => i < leases@.len() && first_idx(
                lease_views(leases@),
                p_foreign(addr@, marker@),
            ) == i as int,
            Option::None => first_idx(lease_views(leases@), p_foreign(addr@, marker@)) == -1,
        },
{
    let ghost p = p_foreign(addr@, marker@);
    let n = leases.len();
    let mut i: usize = 0;
    while i < n
        invariant
            i <= n,
            n == leases@.len(),
            p == p_foreign(addr@, marker@),
            forall|j: int| 0 <= j < i ==> !p(#[trigger] lease_views(leases@)[j]),
        decreases n - i,
    {
        let hit = str_eq(leases[i].address.as_str(), addr) && classify(
            leases[i].comment.as_str(),
            marker,
        ) == Ownership::ManagedByOther;
        proof {
            assert(lease_views(leases@)[i as int] == leases@[i as int]@);
        }
        if hit {
            proof {
                lemma_first_idx_is(lease_views(leases@), p, i as int);
            }
            return Option::Some(i);
        }
        i = i + 1;
    }
    proof {
        lemma_first_idx_none(lease_views(leases@), p);
    }
    Option::None
}

/// Index of the first unmanaged dynamic exact match carrying a hardware
/// address.
pub fn find_dyn_mac_idx(leases: &Vec<Lease>, addr: &str, marker: &str) -> (r: Option<usize>)
    ensures
        match r {
            Option::Some(i) => i < leases@.len() && first_idx(
                lease_views(leases@),
                p_dyn_mac(addr@, marker@),
            ) == i as int,
            Option::None => first_idx(lease_views(leases@), p_dyn_mac(addr@, marker@)) == -1,
        },
{
    let ghost p = p_dyn_mac(addr@, marker@);
    let n = leases.len();
    let mut i: usize = 0;
    while i < n
        invariant
            i <= n,
            n == leases@.len(),
            p == p_dyn_mac(addr@, marker@),
            forall|j: int| 0 <= j < i ==> !p(#[trigger] lease_views(leases@)[j]),
        decreases n - i,
    {
        let hit = str_eq(leases[i].address.as_str(), addr) && classify(
            leases[i].comment.as_str(),
            marker,
        ) == Ownership::Unmanaged && leases[i].dynamic && leases[i].mac_address.is_some();
        proof {
            assert(lease_views(leases@)[i as int] == leases@[i as int]@);
            assert(opt_view(leases@[i as int].mac_address) is Some
                <==> leases@[i as int].mac_address is Some);
        }
        if hit {
            proof {
                lemma_first_idx_is(lease_views(leases@), p, i as int);
            }
            return Option::Some(i);
        }
        i = i + 1;
    }
    proof {
        lemma_first_idx_none(lease_views(leases@), p);
    }
    Option::None
}

/// Index of the first static record holding the given address.
pub fn find_static_idx(leases: &Vec<Lease>, addr: &str) -> (r: Option<usize>)
    ensures
        match r {
            Option::Some(i) => i < leases@.len() && first_idx(
                lease_views(leases@),
                p_static_at(addr@),
            ) == i as int,
            Option::None => first_idx(lease_views(leases@), p_static_at(addr@)) == -1,
        },
{
    let ghost p = p_static_at(addr@);
    let n = leases.len();
    let mut i: usize = 0;
    while i < n
        invariant
            i <= n,
            n == leases@.len(),
            p == p_static_at(addr@),
            forall|j: int| 0 <= j < i ==> !p(#[trigger] lease_views(leases@)[j]),
        decreases n - i,
    {
        let hit = str_eq(leases[i].address.as_str(), addr) && !leases[i].dynamic;
        proof {
            assert(lease_views(leases@)[i as int] == leases@[i as int]@);
        }
        if hit {
            proof {
                lemma_first_idx_is(lease_views(leases@), p, i as int);
            }
            return Option::Some(i);
        }
        i = i + 1;
    }
    proof {
        lemma_first_idx_none(lease_views(leases@), p);
    }
    Option::None
}

/// Index of the first lease with the given identifier.
pub fn find_id_idx(leases: &Vec<Lease>, id: u64) -> (r: Option<usize>)
    ensures
        match r {
            Option::Some(i) => i < leases@.len() && first_idx(
                lease_views(leases@),
                p_lease_id(id),
            ) == i as int,
            Option::None => first_idx(lease_views(leases@), p_lease_id(id)) == -1,
        },
{
    let ghost p = p_lease_id(id);
    let n = leases.len();
    let mut i: usize = 0;
    while i < n
        invariant
            i <= n,
            n == leases@.len(),
            p == p_lease_id(id),
            forall|j: int| 0 <= j < i ==> !p(#[trigger] lease_views(leases@)[j]),
        decreases n - i,
    {
        let hit = leases[i].id == id;
        proof {
            assert(lease_views(leases@)[i as int] == leases@[i as int]@);
        }
        if hit {
            proof {
                lemma_first_idx_is(lease_views(leases@), p, i as int);
            }
            return Option::Some(i);
        }
        i = i + 1;
    }
    proof {
        lemma_first_idx_none(lease_views(leases@), p);
    }
    Option::None
}

/// Index of the first option record with the given name.
pub fn find_opt_idx(options: &Vec<DnsOption>, name: &str) -> (r: Option<usize>)
    ensures
        match r {
            Option::Some(i) => i < options@.len() && first_idx(
                option_views(options@),
                p_opt_name(name@),
            ) == i as int,
            Option::None => first_idx(option_views(options@), p_opt_name(name@)) == -1,
        },
{
    let ghost p = p_opt_name(name@);
    let n = options.len();
    let mut i: usize = 0;
    while i < n
        invariant
            i <= n,
            n == options@.len(),
            p == p_opt_name(name@),
            forall|j: int| 0 <= j < i ==> !p(#[trigger] option_views(options@)[j]),
        decreases n - i,
    {
        let hit = str_eq(options[i].name.as_str(), name);
        proof {
            assert(option_views(options@)[i as int] == options@[i as int]@);
        }
        if hit {
            proof {
                lemma_first_idx_is(option_views(options@), p, i as int);
            }
            return Option::Some(i);
        }
        i = i + 1;
    }
    proof {
        lemma_first_idx_none(option_views(options@), p);
    }
    Option::None
}

/// What the apply operation must do about the lease records it found.
#[derive(Debug, PartialEq, Eq)]
pub enum ApplyDecision {
    /// A lease we own exists: link it to the option, nothing else.
    UpdateManaged { id: u64 },
    /// A lease owned by another manager exists: refuse to proceed.
    LeaseConflict { comment: String },
    /// An unmanaged dynamic lease with a hardware address exists: create a new
    /// static lease carrying that address, leaving the dynamic one untouched.
    CreateWithMac { mac: String },
    /// Nothing relevant exists: create a fresh static lease.
    CreateFresh,
}

/// Mathematical view of an apply decision.
#[verifier::ext_equal]
pub enum ApplyDecisionV {
    UpdateManaged { id: u64 },
    LeaseConflict { comment: Seq<char> },
    CreateWithMac { mac: Seq<char> },
    CreateFresh,
}

impl View for ApplyDecision {
    type V = ApplyDecisionV;

    open spec fn view(&self) -> ApplyDecisionV {
        match self {
            ApplyDecision::UpdateManaged { id } => ApplyDecisionV::UpdateManaged { id: *id },
            ApplyDecision::LeaseConflict { comment } => ApplyDecisionV::LeaseConflict {
                comment: comment@,
            },
            ApplyDecision::CreateWithMac { mac } => ApplyDecisionV::CreateWithMac { mac: mac@ },
            ApplyDecision::CreateFresh => ApplyDecisionV::CreateFresh,
        }
    }
}

/// The apply decision as a function of the lease records: a managed match is
/// updated; otherwise a foreign match is a conflict; otherwise an unmanaged
/// dynamic match with a hardware address seeds a new static lease; otherwise
/// a fresh one is created.
pub open spec fn decide_apply_spec(
    leases: Seq<crate::model::LeaseV>,
    addr: Seq<char>,
    marker: Seq<char>,
) -> ApplyDecisionV {
    let m = first_idx(leases, p_managed(addr, marker));
    if m != -1 {
        ApplyDecisionV::UpdateManaged { id: leases[m].id }
    } else {
        let f = first_idx(leases, p_foreign(addr, marker));
        if f != -1 {
            ApplyDecisionV::LeaseConflict { comment: leases[f].comment }
        } else {
            let dm = first_idx(leases, p_dyn_mac(addr, marker));
            if dm != -1 {
                ApplyDecisionV::CreateWithMac { mac: leases[dm].mac_address->Some_0 }
            } else {
                ApplyDecisionV::CreateFresh
            }
        }
    }
}

/// Decides what apply must do about the leases found for a client address.
pub fn decide_apply(leases: &Vec<Lease>, addr: &str, marker: &str) -> (d: ApplyDecision)
    ensures
        d@ == decide_apply_spec(lease_views(leases@), addr@, marker@),
{
    match find_managed_idx(leases, addr, marker) {
        Option::Some(i) => ApplyDecision::UpdateManaged { id: leases[i].id },
        Option::None => match find_foreign_idx(leases, addr, marker) {
            Option::Some(f) => ApplyDecision::LeaseConflict {
                comment: leases[f].comment.clone(),
            },
            Option::None => match find_dyn_mac_idx(leases, addr, marker) {
                Option::Some(dm) => {
                    proof {
                        lemma_first_idx(lease_views(leases@), p_dyn_mac(addr@, marker@));
                        assert((p_dyn_mac(addr@, marker@))(lease_views(leases@)[dm as int]));
                        assert(lease_views(leases@)[dm as int] == leases@[dm as int]@);
                    }
                    let mac = match &leases[dm].mac_address {
                        Option::Some(s) => s.clone(),
                        Option::None => {
                            proof {
                                assert(false);
                            }
                            String::new()
                        },
                    };
                    ApplyDecision::CreateWithMac { mac }
                },
                Option::None => ApplyDecision::CreateFresh,
            },
        },
    }
}

/// What the option upsert must do about the record it found under the derived
/// name.
#[derive(Debug, PartialEq, Eq)]
pub enum EnsureDecision {
    /// No record under the name: create it, asserting ownership.
    CreateNew,
    /// The record is ours: refresh its value, nothing else.
    RefreshValue,
    /// The record is unmanaged: refresh its value and claim it by setting the
    /// comment.
    RefreshValueAndClaim,
    /// The record is owned by another manager: refuse to proceed.
    OptionConflict { comment: String },
}

/// Mathematical view of an upsert decision.
#[verifier::ext_equal]
pub enum EnsureDecisionV {
    CreateNew,
    RefreshValue,
    RefreshValueAndClaim,
    OptionConflict { comment: Seq<char> },
}

impl View for EnsureDecision {
    type V = EnsureDecisionV;

    open spec fn view(&self) -> EnsureDecisionV {
        match self {
            EnsureDecision::CreateNew => EnsureDecisionV::CreateNew,
            EnsureDecision::RefreshValue => EnsureDecisionV::RefreshValue,
            EnsureDecision::RefreshValueAndClaim => EnsureDecisionV::RefreshValueAndClaim,
            EnsureDecision::OptionConflict { comment } => EnsureDecisionV::OptionConflict {
                comment: comment@,
            },
        }
    }
}

/// The upsert decision as a function of the record found under the name.
pub open spec fn decide_ensure_spec(
    existing: Option<crate::model::OptV>,
    marker: Seq<char>,
) -> EnsureDecisionV {
    match existing {
        Option::None => EnsureDecisionV::CreateNew,
        Option::Some(o) => {
            if classify_spec(o.comment, marker) == Ownership::ManagedByOther {
                EnsureDecisionV::OptionConflict { comment: o.comment }
            } else if classify_spec(o.comment, marker) == Ownership::ManagedByUs {
                EnsureDecisionV::RefreshValue
            } else {
                EnsureDecisionV::RefreshValueAndClaim
            }
        },
    }
}

/// Decides what the option upsert must do about an existing record.
pub fn decide_ensure(existing: &Option<DnsOption>, marker: &str) -> (d: EnsureDecision)
    ensures
        d@ == decide_ensure_spec(opt_record_view(*existing), marker@),
{
    match existing {
        Option::None => EnsureDecision::CreateNew,
        Option::Some(o) => {
            match classify(o.comment.as_str(), marker) {
                Ownership::ManagedByOther => EnsureDecision::OptionConflict {
                    comment: o.comment.clone(),
                },
                Ownership::ManagedByUs => EnsureDecision::RefreshValue,
                Ownership::Unmanaged => EnsureDecision::RefreshValueAndClaim,
            }
        },
    }
}

/// What the revert operation must do about the lease records it found.
#[derive(Debug, PartialEq, Eq)]
pub enum RevertDecision {
    /// A lease we own exists: remove it, then remove its linked option.
    RemoveManaged { id: u64, dns_option_name: Option<String> },
    /// A lease owned by another manager exists: refuse to proceed.
    RevertConflict { comment: String },
    /// No managed and no foreign lease: there is nothing to revert.
    NothingManaged,
}

/// Mathematical view of a revert decision.
#[verifier::ext_equal]
pub enum RevertDecisionV {
    RemoveManaged { id: u64, dns_option_name: Option<Seq<char>> },
    RevertConflict { comment: Seq<char> },
    NothingManaged,
}

impl View for RevertDecision {
    type V = RevertDecisionV;

    open spec fn view(&self) -> RevertDecisionV {
        match self {
            RevertDecision::RemoveManaged { id, dns_option_name } => {
                RevertDecisionV::RemoveManaged {
                    id: *id,
                    dns_option_name: opt_view(*dns_option_name),
                }
            },
            RevertDecision::RevertConflict { comment } => RevertDecisionV::RevertConflict {
                comment: comment@,
            },
            RevertDecision::NothingManaged => RevertDecisionV::NothingManaged,
        }
    }
}

/// The revert decision as a function of the lease records: a managed match is
/// removed together with its linked option; otherwise a foreign match is a
/// conflict; otherwise there is nothing to do.
pub open spec fn decide_revert_spec(
    leases: Seq<crate::model::LeaseV>,
    addr: Seq<char>,
    marker: Seq<char>,
) -> RevertDecisionV {
    let m = first_idx(leases, p_managed(addr, marker));
    if m != -1 {
        RevertDecisionV::RemoveManaged {
            id: leases[m].id,
            dns_option_name: leases[m].dns_option_name,
        }
    } else {
        let f = first_idx(leases, p_foreign(addr, marker));
        if f != -1 {
            RevertDecisionV::RevertConflict { comment: leases[f].comment }
        } else {
            RevertDecisionV::NothingManaged
        }
    }
}

/// Decides what revert must do about the leases found for a client address.
pub fn decide_revert(leases: &Vec<Lease>, addr: &str, marker: &str) -> (d: RevertDecision)
    ensures
        d@ == decide_revert_spec(lease_views(leases@), addr@, marker@),
{
    match find_managed_idx(leases, addr, marker) {
        Option::Some(i) => RevertDecision::RemoveManaged {
            id: leases[i].id,
            dns_option_name: clone_opt_string(&leases[i].dns_option_name),
        },
        Option::None => match find_foreign_idx(leases, addr, marker) {
            Option::Some(f) => RevertDecision::RevertConflict {
                comment: leases[f].comment.clone(),
            },
            Option::None => RevertDecision::NothingManaged,
        },
    }
}

} // verus!
