//! The device command channel's reply vocabulary, and the folding of raw reply
//! attributes into the model's records.
//!
//! A command yields a stream of replies terminated by a completion or error
//! marker. The transport hands the raw records to these functions; everything
//! that interprets them is verified here.

use vstd::prelude::*;
use crate::errors::{EngineError, ErrV};
use crate::model::{DnsOption, Lease, LeaseV, OptV};
use crate::seq_find::{first_idx, lemma_first_idx_is, lemma_first_idx_none};
use crate::strutil::{opt_view, str_eq};

verus! {

/// One key/value pair of a device reply; the device may send a key without a
/// value.
#[derive(Debug, PartialEq, Eq)]
pub struct ReplyAttr {
    pub key: String,
    pub value: Option<String>,
}

/// Mathematical view of a reply attribute.
#[verifier::ext_equal]
pub struct AttrV {
    pub key: Seq<char>,
    pub value: Option<Seq<char>>,
}

impl View for ReplyAttr {
    type V = AttrV;

    open spec fn view(&self) -> AttrV {
        AttrV { key: self.key@, value: opt_view(self.value) }
    }
}

/// Views of a sequence of reply attributes, element by element.
pub open spec fn attr_views(s: Seq<ReplyAttr>) -> Seq<AttrV> {
    Seq::new(s.len(), |i: int| s[i]@)
}

/// One record of the stream a command returns.
#[derive(Debug, PartialEq, Eq)]
pub enum DeviceResponse {
    /// One data record.
    Reply(Vec<ReplyAttr>),
    /// The command completed.
    Done,
    /// The device refused the command; recoverable and command-specific.
    Trap(String),
    /// The channel failed; unrecoverable.
    Fatal(String),
}

/// The attribute with the given key.
pub open spec fn p_attr_key(key: Seq<char>) -> spec_fn(AttrV) -> bool {
    |a: AttrV| a.key == key
}

/// The value of the first attribute under the given key, if any; the device
/// may report the key with no value.
pub open spec fn attr_lookup(attrs: Seq<AttrV>, key: Seq<char>) -> Option<Seq<char>> {
    let i = first_idx(attrs, p_attr_key(key));
    if i == -1 {
        Option::None
    } else {
        attrs[i].value
    }
}

/// The sequence itself when present, the empty one otherwise.
pub open spec fn or_empty(o: Option<Seq<char>>) -> Seq<char> {
    if o is Some {
        o->Some_0
    } else {
        Seq::empty()
    }
}

/// Looks up the value of the first attribute under the given key.
pub fn attr_value(attrs: &Vec<ReplyAttr>, key: &str) -> (r: Option<String>)
    ensures
        opt_view(r) == attr_lookup(attr_views(attrs@), key@),
{
    let ghost p = p_attr_key(key@);
    let n = attrs.len();
    let mut i: usize = 0;
    while i < n
        invariant
            i <= n,
            n == attrs@.len(),
            p == p_attr_key(key@),
            forall|j: int| 0 <= j < i ==> !p(#[trigger] attr_views(attrs@)[j]),
        decreases n - i,
    {
        let hit = str_eq(attrs[i].key.as_str(), key);
        proof {
            assert(attr_views(attrs@)[i as int] == attrs@[i as int]@);
        }
        if hit {
            proof {
                lemma_first_idx_is(attr_views(attrs@), p, i as int);
            }
            return crate::strutil::clone_opt_string(&attrs[i].value);
        }
        i = i + 1;
    }
    proof {
        lemma_first_idx_none(attr_views(attrs@), p);
    }
    Option::None
}

/// The value of the first attribute under the key, or the empty string where
/// the key is absent or carries no value.
pub fn attr_value_or_empty(attrs: &Vec<ReplyAttr>, key: &str) -> (r: String)
    ensures
        r@ == or_empty(attr_lookup(attr_views(attrs@), key@)),
{
    match attr_value(attrs, key) {
        Option::Some(v) => v,
        Option::None => String::new(),
    }
}

/// The lease a reply record describes, as a function of its attributes and the
/// identifier the transport assigned to the record.
pub open spec fn lease_of_attrs(id: u64, attrs: Seq<AttrV>) -> LeaseV {
    LeaseV {
        id,
        address: or_empty(attr_lookup(attrs, "address"@)),
        mac_address: attr_lookup(attrs, "mac-address"@),
        dynamic: attr_lookup(attrs, "dynamic"@) == Option::Some("true"@),
        comment: or_empty(attr_lookup(attrs, "comment"@)),
        dns_option_name: attr_lookup(attrs, "dhcp-option"@),
    }
}

/// Builds a lease record from a device reply. An absent address or comment is
/// the empty string; the lease is dynamic exactly when the device says so.
pub fn lease_from_attrs(id: u64, attrs: &Vec<ReplyAttr>) -> (l: Lease)
    ensures
        l@ == lease_of_attrs(id, attr_views(attrs@)),
{
    let dynamic = match attr_value(attrs, "dynamic") {
        Option::Some(v) => str_eq(v.as_str(), "true"),
        Option::None => false,
    };
    Lease {
        id,
        address: attr_value_or_empty(attrs, "address"),
        mac_address: attr_value(attrs, "mac-address"),
        dynamic,
        comment: attr_value_or_empty(attrs, "comment"),
        dns_option_name: attr_value(attrs, "dhcp-option"),
    }
}

/// The option record a reply record describes, given the numeric code the
/// transport parsed.
pub open spec fn option_of_attrs(code: u64, attrs: Seq<AttrV>) -> OptV {
    OptV {
        name: or_empty(attr_lookup(attrs, "name"@)),
        code,
        value: or_empty(attr_lookup(attrs, "value"@)),
        comment: or_empty(attr_lookup(attrs, "comment"@)),
    }
}

/// Builds an option record from a device reply.
pub fn option_from_attrs(code: u64, attrs: &Vec<ReplyAttr>) -> (o: DnsOption)
    ensures
        o@ == option_of_attrs(code, attr_views(attrs@)),
{
    DnsOption {
        name: attr_value_or_empty(attrs, "name"),
        code,
        value: attr_value_or_empty(attrs, "value"),
        comment: attr_value_or_empty(attrs, "comment"),
    }
}

/// The failure a terminal response carries: a trap is a command-specific
/// rejection, a fatal reason is a channel failure; data and completion records
/// carry none.
pub fn terminal_error(resp: &DeviceResponse) -> (r: Option<EngineError>)
    ensures
        match resp {
            DeviceResponse::Trap(m) => r matches Option::Some(e) && e@ == ErrV::DeviceRejected(
                m@,
            ),
            DeviceResponse::Fatal(m) => r matches Option::Some(e) && e@ == ErrV::ChannelFailure(
                m@,
            ),
            _ => r is None,
        },
{
    match resp {
        DeviceResponse::Trap(m) => Option::Some(EngineError::DeviceRejected(m.clone())),
        DeviceResponse::Fatal(m) => Option::Some(EngineError::ChannelFailure(m.clone())),
        DeviceResponse::Reply(_) => Option::None,
        DeviceResponse::Done => Option::None,
    }
}

} // verus!
