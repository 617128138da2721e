//! The engine's failure taxonomy. Benign "nothing to do" cases are modeled as
//! success, not as errors.

use vstd::prelude::*;

verus! {

/// A failure of one of the engine's operations.
#[derive(Debug, PartialEq, Eq)]
pub enum EngineError {
    /// A lease or option exists and is owned by another manager; the payload
    /// is the offending comment. Apply and revert refuse to proceed.
    Conflict(String),
    /// The device trapped a command that was expected to succeed; the payload
    /// is the device's message verbatim.
    DeviceRejected(String),
    /// A transport- or connection-level failure, propagated without retry.
    ChannelFailure(String),
}

/// Mathematical view of an engine failure.
#[verifier::ext_equal]
pub enum ErrV {
    Conflict(Seq<char>),
    DeviceRejected(Seq<char>),
    ChannelFailure(Seq<char>),
}

impl View for EngineError {
    type V = ErrV;

    open spec fn view(&self) -> ErrV {
        match self {
            EngineError::Conflict(c) => ErrV::Conflict(c@),
            EngineError::DeviceRejected(m) => ErrV::DeviceRejected(m@),
            EngineError::ChannelFailure(m) => ErrV::ChannelFailure(m@),
        }
    }
}

/// Whether an executable result agrees with a specification-level one.
pub open spec fn res_matches(r: Result<(), EngineError>, s: Result<(), ErrV>) -> bool {
    match r {
        Result::Ok(()) => s is Ok,
        Result::Err(e) => s matches Result::Err(ev) && e@ == ev,
    }
}

} // verus!
