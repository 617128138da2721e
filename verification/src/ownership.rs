//! Ownership policy: classifies a record's comment against the configured
//! marker string.

use vstd::prelude::*;

verus! {

/// Classification of a lease or option record relative to the configured
/// ownership marker.
#[derive(Clone, Copy, Debug, PartialEq, Eq, Structural)]
pub enum Ownership {
    /// The record carries no comment; nobody claims it.
    Unmanaged,
    /// The record's comment equals the marker; this engine owns it.
    ManagedByUs,
    /// The record carries a non-empty comment that is not the marker; another
    /// tool or administrator owns it and this engine must not touch it.
    ManagedByOther,
}

/// What `classify` returns, as a function of the comment and marker text.
pub open spec fn classify_spec(comment: Seq<char>, marker: Seq<char>) -> Ownership {
    if comment.len() == 0 {
        Ownership::Unmanaged
    } else if comment == marker {
        Ownership::ManagedByUs
    } else {
        Ownership::ManagedByOther
    }
}

/// Total decision rule over all string inputs: empty comment is unmanaged,
/// the marker itself is ours, any other non-empty comment belongs to another
/// manager.
pub fn classify(comment: &str, marker: &str) -> (o: Ownership)
    ensures
        o == classify_spec(comment@, marker@),
{
    if comment.is_empty() {
        Ownership::Unmanaged
    } else if crate::strutil::str_eq(comment, marker) {
        Ownership::ManagedByUs
    } else {
        Ownership::ManagedByOther
    }
}

} // verus!
