//! Deterministic derivation of an option name from a client address.
//!
//! The name doubles as the option's identifier and idempotence key: because it
//! is a pure function of the address, lookup and creation need no persisted
//! mapping.

use vstd::prelude::*;
use vstd::string::*;
use crate::strutil::push_char;

verus! {

/// The numeric DHCP option code for DNS servers.
pub const DNS_OPTION_CODE: u64 = 6;

/// The address with every dot replaced by a dash, making it name-safe.
pub open spec fn dashed(addr: Seq<char>) -> Seq<char> {
    addr.map_values(|c: char| if c == '.' { '-' } else { c })
}

/// The option name derived from a client address.
pub open spec fn option_name_spec(addr: Seq<char>) -> Seq<char> {
    seq!['d', 'n', 's', '-'] + dashed(addr)
}

/// The option value for a DNS server, quoted per the device's convention.
pub open spec fn quoted_spec(v: Seq<char>) -> Seq<char> {
    seq!['\''] + v + seq!['\'']
}

/// Derives the option name for a client address: `dns-` followed by the
/// address with dots turned into dashes.
pub fn option_name_for(address: &str) -> (r: String)
    ensures
        r@ == option_name_spec(address@),
{
    let mut r = String::new();
    push_char(&mut r, 'd');
    push_char(&mut r, 'n');
    push_char(&mut r, 's');
    push_char(&mut r, '-');
    proof {
        assert(r@ =~= seq!['d', 'n', 's', '-']);
    }
    let n = address.unicode_len();
    let mut i: usize = 0;
    while i < n
        invariant
            i <= n,
            n == address@.len(),
            r@ == seq!['d', 'n', 's', '-'] + dashed(address@.subrange(0, i as int)),
        decreases n - i,
    {
        let c = address.get_char(i);
        if c == '.' {
            push_char(&mut r, '-');
        } else {
            push_char(&mut r, c);
        }
        proof {
            assert(address@.subrange(0, (i + 1) as int)
                =~= address@.subrange(0, i as int).push(address@[i as int]));
            assert(dashed(address@.subrange(0, (i + 1) as int))
                =~= dashed(address@.subrange(0, i as int)).push(
                    if address@[i as int] == '.' { '-' } else { address@[i as int] }));
            assert(r@ =~= seq!['d', 'n', 's', '-'] + dashed(address@.subrange(0, (i + 1) as int)));
        }
        i = i + 1;
    }
    proof {
        assert(address@.subrange(0, n as int) =~= address@);
    }
    r
}

/// Wraps a DNS server value in single quotes, the encoding the device expects
/// for option values.
pub fn quote_value(v: &str) -> (r: String)
    ensures
        r@ == quoted_spec(v@),
{
    let mut r = String::new();
    push_char(&mut r, '\'');
    r.append(v);
    push_char(&mut r, '\'');
    proof {
        assert(r@ =~= quoted_spec(v@));
    }
    r
}

} // verus!
