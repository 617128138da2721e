//! The engine's guarantees, stated and proved over the transition functions
//! that the executable operations are verified against: idempotence of apply,
//! the round trip back to an unmanaged state, preservation of records owned by
//! another manager, and the no-op revert.

use vstd::prelude::*;
use crate::engine::{apply_spec, query_spec, revert_spec, AnswerV};
use crate::errors::ErrV;
use crate::model::{
    opt_names_unique, p_dyn_mac, p_exact, p_foreign, p_managed, p_opt_name, p_static_at, DeviceV,
    LeaseV, OptV,
};
use crate::naming::{option_name_spec, quoted_spec, DNS_OPTION_CODE};
use crate::ownership::{classify_spec, Ownership};
use crate::repo::{create_lease_spec, created_lease, ensure_option_spec};
use crate::seq_find::{first_idx, lemma_first_idx, lemma_first_idx_is, lemma_first_idx_none};

verus! {

/// After a successful option upsert, the first record under the name holds the
/// given value and the marker comment, and nothing else changed.
proof fn lemma_ensure_ok_state(
    d: DeviceV,
    name: Seq<char>,
    code: u64,
    value: Seq<char>,
    marker: Seq<char>,
)
    requires
        marker.len() > 0,
        ensure_option_spec(d, name, code, value, marker).1 is Ok,
    ensures
        ({
            let d1 = ensure_option_spec(d, name, code, value, marker).0;
            let k = first_idx(d1.options, p_opt_name(name));
            &&& d1.leases == d.leases
            &&& d1.global_dns == d.global_dns
            &&& d1.next_id == d.next_id
            &&& k != -1
            &&& d1.options[k].name == name
            &&& d1.options[k].value == value
            &&& d1.options[k].comment == marker
        }),
{
    let p = p_opt_name(name);
    let i = first_idx(d.options, p);
    lemma_first_idx(d.options, p);
    if i == -1 {
        let o = OptV { name, code, value, comment: marker };
        let opts1 = d.options.push(o);
        assert(p(opts1[d.options.len() as int]));
        assert forall|j: int| 0 <= j < d.options.len() implies !p(opts1[j]) by {
            assert(opts1[j] == d.options[j]);
        }
        lemma_first_idx_is(opts1, p, d.options.len() as int);
    } else {
        let o = d.options[i];
        let o1 = if classify_spec(o.comment, marker) == Ownership::ManagedByUs {
            OptV { value, ..o }
        } else {
            OptV { value, comment: marker, ..o }
        };
        let opts1 = d.options.update(i, o1);
        assert(p(opts1[i]));
        assert forall|j: int| 0 <= j < i implies !p(opts1[j]) by {
            assert(opts1[j] == d.options[j]);
        }
        lemma_first_idx_is(opts1, p, i);
    }
}

/// An upsert whose record is already in place changes nothing and succeeds.
proof fn lemma_ensure_idem(
    d1: DeviceV,
    name: Seq<char>,
    code: u64,
    value: Seq<char>,
    marker: Seq<char>,
)
    requires
        marker.len() > 0,
        first_idx(d1.options, p_opt_name(name)) != -1,
        d1.options[first_idx(d1.options, p_opt_name(name))].value == value,
        d1.options[first_idx(d1.options, p_opt_name(name))].comment == marker,
    ensures
        ensure_option_spec(d1, name, code, value, marker).0 == d1,
        ensure_option_spec(d1, name, code, value, marker).1 == Result::<(), ErrV>::Ok(()),
{
    let p = p_opt_name(name);
    let k = first_idx(d1.options, p);
    lemma_first_idx(d1.options, p);
    let o = d1.options[k];
    assert(classify_spec(o.comment, marker) == Ownership::ManagedByUs);
    assert(OptV { value, ..o } == o);
    assert(d1.options.update(k, o) =~= d1.options);
    assert(ensure_option_spec(d1, name, code, value, marker).0 =~~= d1);
}

/// After a successful apply, the client is in the managed state: the first
/// managed lease match for the address links the derived option name, and the
/// first option record under that name carries the quoted value and the
/// marker.
pub proof fn lemma_apply_ok(d: DeviceV, addr: Seq<char>, value: Seq<char>, marker: Seq<char>)
    requires
        marker.len() > 0,
        apply_spec(d, addr, value, marker).1 is Ok,
    ensures
        ({
            let d2 = apply_spec(d, addr, value, marker).0;
            let name = option_name_spec(addr);
            let k = first_idx(d2.options, p_opt_name(name));
            let m = first_idx(d2.leases, p_managed(addr, marker));
            &&& k != -1
            &&& d2.options[k].name == name
            &&& d2.options[k].value == quoted_spec(value)
            &&& d2.options[k].comment == marker
            &&& m != -1
            &&& d2.leases[m].address == addr
            &&& d2.leases[m].comment == marker
            &&& d2.leases[m].dns_option_name == Option::Some(name)
        }),
{
    let name = option_name_spec(addr);
    let pm = p_managed(addr, marker);
    let e = ensure_option_spec(d, name, DNS_OPTION_CODE, quoted_spec(value), marker);
    assert(e.1 is Ok);
    lemma_ensure_ok_state(d, name, DNS_OPTION_CODE, quoted_spec(value), marker);
    let d1 = e.0;
    let m1 = first_idx(d1.leases, pm);
    lemma_first_idx(d1.leases, pm);
    if m1 != -1 {
        let l1 = LeaseV { dns_option_name: Option::Some(name), ..d1.leases[m1] };
        let ls2 = d1.leases.update(m1, l1);
        assert(pm(ls2[m1]));
        assert forall|j: int| 0 <= j < m1 implies !pm(ls2[j]) by {
            assert(ls2[j] == d1.leases[j]);
        }
        lemma_first_idx_is(ls2, pm, m1);
    } else {
        let f = first_idx(d1.leases, p_foreign(addr, marker));
        assert(f == -1);
        let dm = first_idx(d1.leases, p_dyn_mac(addr, marker));
        let mac = if dm != -1 {
            d1.leases[dm].mac_address
        } else {
            Option::None
        };
        let c = create_lease_spec(d1, addr, mac, name, marker);
        assert(c.1 is Ok);
        let nl = created_lease(d1, addr, mac, name, marker);
        let ls2 = d1.leases.push(nl);
        assert(classify_spec(marker, marker) == Ownership::ManagedByUs);
        assert(pm(nl));
        assert forall|j: int| 0 <= j < d1.leases.len() implies !pm(ls2[j]) by {
            assert(ls2[j] == d1.leases[j]);
        }
        lemma_first_idx_is(ls2, pm, d1.leases.len() as int);
    }
}

/// Idempotence: a second apply with the same address, value, and marker
/// succeeds and leaves the device state exactly as the first left it.
pub proof fn lemma_apply_idempotent(
    d: DeviceV,
    addr: Seq<char>,
    value: Seq<char>,
    marker: Seq<char>,
)
    requires
        marker.len() > 0,
        apply_spec(d, addr, value, marker).1 is Ok,
    ensures
        ({
            let d2 = apply_spec(d, addr, value, marker).0;
            &&& apply_spec(d2, addr, value, marker).0 == d2
            &&& apply_spec(d2, addr, value, marker).1 == Result::<(), ErrV>::Ok(())
        }),
{
    lemma_apply_ok(d, addr, value, marker);
    let d2 = apply_spec(d, addr, value, marker).0;
    let name = option_name_spec(addr);
    let pm = p_managed(addr, marker);
    lemma_ensure_idem(d2, name, DNS_OPTION_CODE, quoted_spec(value), marker);
    let m = first_idx(d2.leases, pm);
    lemma_first_idx(d2.leases, pm);
    let l0 = d2.leases[m];
    let l1 = LeaseV { dns_option_name: Option::Some(name), ..l0 };
    assert(l1 == l0);
    assert(d2.leases.update(m, l1) =~= d2.leases);
    assert(apply_spec(d2, addr, value, marker).0 =~~= d2);
}

/// Success is owed: on a device with no lease for the address, no foreign
/// record under the derived option name, and a free identifier, apply
/// succeeds.
pub proof fn lemma_apply_succeeds_on_clean(
    d: DeviceV,
    addr: Seq<char>,
    value: Seq<char>,
    marker: Seq<char>,
)
    requires
        marker.len() > 0,
        first_idx(d.leases, p_exact(addr)) == -1,
        ({
            let k = first_idx(d.options, p_opt_name(option_name_spec(addr)));
            k == -1 || classify_spec(d.options[k].comment, marker) != Ownership::ManagedByOther
        }),
        d.next_id < u64::MAX,
    ensures
        apply_spec(d, addr, value, marker).1 is Ok,
{
    let name = option_name_spec(addr);
    let pe = p_exact(addr);
    let pm = p_managed(addr, marker);
    let pf = p_foreign(addr, marker);
    let pd = p_dyn_mac(addr, marker);
    let ps = p_static_at(addr);

    lemma_first_idx(d.leases, pe);
    assert forall|j: int| 0 <= j < d.leases.len() implies !pm(d.leases[j]) by {
        assert(!pe(d.leases[j]));
    }
    lemma_first_idx_none(d.leases, pm);
    assert forall|j: int| 0 <= j < d.leases.len() implies !pf(d.leases[j]) by {
        assert(!pe(d.leases[j]));
    }
    lemma_first_idx_none(d.leases, pf);
    assert forall|j: int| 0 <= j < d.leases.len() implies !pd(d.leases[j]) by {
        assert(!pe(d.leases[j]));
    }
    lemma_first_idx_none(d.leases, pd);
    assert forall|j: int| 0 <= j < d.leases.len() implies !ps(d.leases[j]) by {
        assert(!pe(d.leases[j]));
    }
    lemma_first_idx_none(d.leases, ps);

    let e = ensure_option_spec(d, name, DNS_OPTION_CODE, quoted_spec(value), marker);
    assert(e.1 is Ok);
    assert(e.0.leases == d.leases);
    assert(e.0.next_id == d.next_id);
}

/// After any successful apply, the revert for the same address and marker
/// succeeds: the managed lease it finds links the ensured option, which is
/// ours, so nothing refuses.
pub proof fn lemma_revert_after_apply(
    d: DeviceV,
    addr: Seq<char>,
    value: Seq<char>,
    marker: Seq<char>,
)
    requires
        marker.len() > 0,
        apply_spec(d, addr, value, marker).1 is Ok,
    ensures
        revert_spec(apply_spec(d, addr, value, marker).0, addr, marker).1 is Ok,
{
    lemma_apply_ok(d, addr, value, marker);
    let d2 = apply_spec(d, addr, value, marker).0;
    let name = option_name_spec(addr);
    let m = first_idx(d2.leases, p_managed(addr, marker));
    lemma_first_idx(d2.leases, p_managed(addr, marker));
    let oi = first_idx(d2.options, p_opt_name(name));
    assert(oi != -1);
    assert(d2.options[oi].comment == marker);
    assert(classify_spec(d2.options[oi].comment, marker) == Ownership::ManagedByUs);
}

/// Round trip: from a state with no lease at all for the address, a successful
/// apply followed by revert succeeds, leaves no lease for the address and no
/// record under the derived option name, and a query then falls back to the
/// untouched global DNS configuration.
pub proof fn lemma_round_trip(d: DeviceV, addr: Seq<char>, value: Seq<char>, marker: Seq<char>)
    requires
        marker.len() > 0,
        first_idx(d.leases, p_exact(addr)) == -1,
        opt_names_unique(d.options),
        apply_spec(d, addr, value, marker).1 is Ok,
    ensures
        ({
            let d2 = apply_spec(d, addr, value, marker).0;
            let d3 = revert_spec(d2, addr, marker).0;
            &&& revert_spec(d2, addr, marker).1 == Result::<(), ErrV>::Ok(())
            &&& d3.leases == d.leases
            &&& first_idx(d3.leases, p_managed(addr, marker)) == -1
            &&& first_idx(d3.leases, p_exact(addr)) == -1
            &&& first_idx(d3.options, p_opt_name(option_name_spec(addr))) == -1
            &&& d3.global_dns == d.global_dns
            &&& query_spec(d3, addr) == (if d.global_dns is Some {
                AnswerV::GlobalDns(d.global_dns->Some_0)
            } else {
                AnswerV::NoneConfigured
            })
        }),
{
    let name = option_name_spec(addr);
    let pe = p_exact(addr);
    let pm = p_managed(addr, marker);
    let pf = p_foreign(addr, marker);
    let pd = p_dyn_mac(addr, marker);
    let ps = p_static_at(addr);
    let pn = p_opt_name(name);

    // No lease for the address at all, so none managed, foreign, dynamic, or
    // static.
    lemma_first_idx(d.leases, pe);
    assert forall|j: int| 0 <= j < d.leases.len() implies !pm(d.leases[j]) by {
        assert(!pe(d.leases[j]));
    }
    lemma_first_idx_none(d.leases, pm);
    assert forall|j: int| 0 <= j < d.leases.len() implies !pf(d.leases[j]) by {
        assert(!pe(d.leases[j]));
    }
    lemma_first_idx_none(d.leases, pf);
    assert forall|j: int| 0 <= j < d.leases.len() implies !pd(d.leases[j]) by {
        assert(!pe(d.leases[j]));
    }
    lemma_first_idx_none(d.leases, pd);
    assert forall|j: int| 0 <= j < d.leases.len() implies !ps(d.leases[j]) by {
        assert(!pe(d.leases[j]));
    }
    lemma_first_idx_none(d.leases, ps);

    // The apply takes the creation branch with no hardware address.
    let e = ensure_option_spec(d, name, DNS_OPTION_CODE, quoted_spec(value), marker);
    assert(e.1 is Ok);
    lemma_ensure_ok_state(d, name, DNS_OPTION_CODE, quoted_spec(value), marker);
    let d1 = e.0;
    assert(d1.leases == d.leases);
    let c = create_lease_spec(d1, addr, Option::None, name, marker);
    assert(c.1 is Ok);
    let nl = created_lease(d1, addr, Option::None, name, marker);
    let d2 = apply_spec(d, addr, value, marker).0;
    assert(d2.leases == d1.leases.push(nl));
    assert(d2.options == d1.options);

    // Revert finds the created lease as the first managed match.
    assert(classify_spec(marker, marker) == Ownership::ManagedByUs);
    assert(pm(nl));
    assert forall|j: int| 0 <= j < d.leases.len() implies !pm(d2.leases[j]) by {
        assert(d2.leases[j] == d.leases[j]);
    }
    lemma_first_idx_is(d2.leases, pm, d.leases.len() as int);
    let m2 = first_idx(d2.leases, pm);
    assert(d2.leases[m2] == nl);
    assert(nl.dns_option_name == Option::Some(name));

    // The linked option record is the ensured one, owned by us.
    let k = first_idx(d2.options, pn);
    assert(k != -1);
    assert(d2.options[k].comment == marker);
    assert(classify_spec(d2.options[k].comment, marker) == Ownership::ManagedByUs);

    let d3 = revert_spec(d2, addr, marker).0;
    assert(revert_spec(d2, addr, marker).1 == Result::<(), ErrV>::Ok(()));
    assert(d3.leases == d2.leases.remove(m2));
    assert(d3.leases =~= d.leases);
    assert(d3.options == d2.options.remove(k));

    // No record under the derived name survives the removal.
    lemma_first_idx(d.options, pn);
    let i0 = first_idx(d.options, pn);
    if i0 == -1 {
        // The upsert created the record at the end; removing it restores the
        // original options.
        assert(d1.options == d.options.push(OptV {
            name,
            code: DNS_OPTION_CODE,
            value: quoted_spec(value),
            comment: marker,
        }));
        assert(pn(d1.options[d.options.len() as int]));
        assert forall|j: int| 0 <= j < d.options.len() implies !pn(d1.options[j]) by {
            assert(d1.options[j] == d.options[j]);
        }
        lemma_first_idx_is(d1.options, pn, d.options.len() as int);
        assert(k == d.options.len());
        assert(d3.options =~= d.options);
        lemma_first_idx_none(d3.options, pn);
    } else {
        // The upsert updated the record in place; removal leaves the other
        // records, whose names all differ from the derived one.
        assert(pn(d1.options[i0]));
        assert forall|j: int| 0 <= j < i0 implies !pn(d1.options[j]) by {
            assert(d1.options[j] == d.options[j]);
        }
        lemma_first_idx_is(d1.options, pn, i0);
        assert(k == i0);
        assert(d3.options =~= d.options.remove(i0));
        assert(d.options[i0].name == name);
        assert forall|j: int| 0 <= j < d3.options.len() implies !pn(d3.options[j]) by {
            if j < i0 {
                assert(d3.options[j] == d.options[j]);
                assert(d.options[j].name != d.options[i0].name);
            } else {
                assert(d3.options[j] == d.options[j + 1]);
                assert(d.options[i0].name != d.options[j + 1].name);
            }
        }
        lemma_first_idx_none(d3.options, pn);
    }

    // The query on the reverted state falls back to the global configuration.
    lemma_first_idx_none(d3.leases, pe);
    lemma_first_idx_none(d3.leases, pm);
}

/// Conflict preservation for apply, lease side: with no managed match and a
/// foreign match present, apply fails with a conflict and modifies no lease;
/// when the option upsert itself went through, the error carries the foreign
/// lease's comment.
pub proof fn lemma_apply_conflict_lease(
    d: DeviceV,
    addr: Seq<char>,
    value: Seq<char>,
    marker: Seq<char>,
)
    requires
        first_idx(d.leases, p_managed(addr, marker)) == -1,
        first_idx(d.leases, p_foreign(addr, marker)) != -1,
    ensures
        apply_spec(d, addr, value, marker).1 is Err,
        apply_spec(d, addr, value, marker).1->Err_0 is Conflict,
        apply_spec(d, addr, value, marker).0.leases == d.leases,
        ensure_option_spec(
            d,
            option_name_spec(addr),
            DNS_OPTION_CODE,
            quoted_spec(value),
            marker,
        ).1 is Ok ==> apply_spec(d, addr, value, marker).1->Err_0 == ErrV::Conflict(
            d.leases[first_idx(d.leases, p_foreign(addr, marker))].comment,
        ),
{
    let name = option_name_spec(addr);
    let e = ensure_option_spec(d, name, DNS_OPTION_CODE, quoted_spec(value), marker);
    if e.1 is Err {
        assert(e.0 == d);
        assert(e.1->Err_0 is Conflict);
    } else {
        assert(e.0.leases == d.leases);
    }
}

/// Conflict preservation for apply, option side: when the record under the
/// derived name is owned by another manager, apply fails with a conflict
/// carrying that record's comment and changes nothing at all.
pub proof fn lemma_apply_conflict_option(
    d: DeviceV,
    addr: Seq<char>,
    value: Seq<char>,
    marker: Seq<char>,
)
    requires
        ({
            let k = first_idx(d.options, p_opt_name(option_name_spec(addr)));
            k != -1 && classify_spec(d.options[k].comment, marker) == Ownership::ManagedByOther
        }),
    ensures
        apply_spec(d, addr, value, marker).0 == d,
        apply_spec(d, addr, value, marker).1 == Result::<(), ErrV>::Err(
            ErrV::Conflict(
                d.options[first_idx(d.options, p_opt_name(option_name_spec(addr)))].comment,
            ),
        ),
{
}

/// Conflict preservation for revert: with no managed match and a foreign match
/// present, revert fails with a conflict carrying the foreign lease's comment
/// and changes nothing at all.
pub proof fn lemma_revert_conflict(d: DeviceV, addr: Seq<char>, marker: Seq<char>)
    requires
        first_idx(d.leases, p_managed(addr, marker)) == -1,
        first_idx(d.leases, p_foreign(addr, marker)) != -1,
    ensures
        revert_spec(d, addr, marker).0 == d,
        revert_spec(d, addr, marker).1 == Result::<(), ErrV>::Err(
            ErrV::Conflict(d.leases[first_idx(d.leases, p_foreign(addr, marker))].comment),
        ),
{
}

/// No-op revert: with neither a managed nor a foreign match, revert succeeds
/// and changes nothing at all.
pub proof fn lemma_revert_noop(d: DeviceV, addr: Seq<char>, marker: Seq<char>)
    requires
        first_idx(d.leases, p_managed(addr, marker)) == -1,
        first_idx(d.leases, p_foreign(addr, marker)) == -1,
    ensures
        revert_spec(d, addr, marker).0 == d,
        revert_spec(d, addr, marker).1 == Result::<(), ErrV>::Ok(()),
{
}

} // verus!
