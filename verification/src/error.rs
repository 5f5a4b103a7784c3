//! The one error of this library: a raw value, and the part of the call that
//! it came from.

use crate::value::TransportValue;
use vstd::prelude::*;

verus! {

/// A failed call.
///
/// The raw value is kept exactly as it was raised, whatever it is: the host
/// defines its shape, and only the host can render it as text.
#[derive(Debug, PartialEq)]
pub enum Error {
    /// The host answered the call with this value as its error.
    Invoke(TransportValue),
    /// The arguments could not be encoded; the host was never called.
    Args(TransportValue),
    /// The headers could not be encoded; the host was never called.
    Headers(TransportValue),
}

impl Error {
    /// The raw value that the error carries.
    pub open spec fn raw(self) -> TransportValue {
        match self {
            Error::Invoke(raw) => raw,
            Error::Args(raw) => raw,
            Error::Headers(raw) => raw,
        }
    }

    /// Whether the error arose on this side, before the host was called.
    pub open spec fn is_local(self) -> bool {
        self is Args || self is Headers
    }

    /// The raw value, for inspection.
    pub fn as_ref(&self) -> (raw: &TransportValue)
        ensures
            *raw == self.raw(),
    {
        match self {
            Error::Invoke(raw) => raw,
            Error::Args(raw) => raw,
            Error::Headers(raw) => raw,
        }
    }
}

impl From<Error> for TransportValue {
    /// Gives the raw value back, as it was raised.
    fn from(e: Error) -> (raw: TransportValue) {
        match e {
            Error::Invoke(raw) => raw,
            Error::Args(raw) => raw,
            Error::Headers(raw) => raw,
        }
    }
}

impl vstd::std_specs::convert::FromSpecImpl<Error> for TransportValue {
    open spec fn obeys_from_spec() -> bool {
        true
    }

    open spec fn from_spec(e: Error) -> TransportValue {
        e.raw()
    }
}

} // verus!
