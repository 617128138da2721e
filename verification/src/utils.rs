//! Request helpers whose rules are part of the engine's behavior: which header
//! names override the client address behind a reverse proxy.

use vstd::prelude::*;
use crate::seq_find::{first_idx, lemma_first_idx_is, lemma_first_idx_none};
use crate::strutil::str_eq;

verus! {

/// One HTTP header as a plain name/value pair.
#[derive(Debug, PartialEq, Eq)]
pub struct HttpHeader {
    pub name: String,
    pub value: String,
}

/// Mathematical view of a header.
#[verifier::ext_equal]
pub struct HeaderV {
    pub name: Seq<char>,
    pub value: Seq<char>,
}

impl View for HttpHeader {
    type V = HeaderV;

    open spec fn view(&self) -> HeaderV {
        HeaderV { name: self.name@, value: self.value@ }
    }
}

/// Views of a sequence of headers, element by element.
pub open spec fn header_views(s: Seq<HttpHeader>) -> Seq<HeaderV> {
    Seq::new(s.len(), |i: int| s[i]@)
}

/// A header carrying the real client address, in either accepted spelling.
pub open spec fn p_real_ip() -> spec_fn(HeaderV) -> bool {
    |h: HeaderV| h.name == "X-Real-IP"@ || h.name == "x-real-ip"@
}

/// The client address a reverse proxy put in the headers: the value of the
/// first header named `X-Real-IP` or `x-real-ip`, if any.
pub fn get_custom_ip_from_headers(headers: &Vec<HttpHeader>) -> (r: Option<String>)
    ensures
        ({
            let i = first_idx(header_views(headers@), p_real_ip());
            match r {
                Option::Some(v) => i != -1 && v@ == header_views(headers@)[i].value,
                Option::None => i == -1,
            }
        }),
{
    let ghost p = p_real_ip();
    let n = headers.len();
    let mut i: usize = 0;
    while i < n
        invariant
            i <= n,
            n == headers@.len(),
            p == p_real_ip(),
            forall|j: int| 0 <= j < i ==> !p(#[trigger] header_views(headers@)[j]),
        decreases n - i,
    {
        let hit = str_eq(headers[i].name.as_str(), "X-Real-IP") || str_eq(
            headers[i].name.as_str(),
            "x-real-ip",
        );
        proof {
            assert(header_views(headers@)[i as int] == headers@[i as int]@);
        }
        if hit {
            proof {
                lemma_first_idx_is(header_views(headers@), p, i as int);
            }
            return Option::Some(headers[i].value.clone());
        }
        i = i + 1;
    }
    proof {
        lemma_first_idx_none(header_views(headers@), p);
    }
    Option::None
}

} // verus!
