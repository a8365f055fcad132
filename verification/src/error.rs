//! The failures that building or decoding a candidate can report.

use vstd::prelude::*;

verus! {

/// Why a candidate could not be built or decoded.
#[derive(Clone, Copy, Debug, PartialEq, Eq, Structural)]
pub enum Error {
    /// The address of a construction config is not a literal IP address.
    AddressParseFailed,
    /// The transport token is neither `udp` nor `tcp`.
    UnsupportedNetworkType,
    /// The text does not follow the candidate grammar.
    UnmarshalMalformed,
    /// A number of the text is well formed but too large for its field.
    UnmarshalOutOfRange,
}

impl Error {
    /// A short description of the failure, for logs and diagnostics.
    pub fn message(&self) -> (s: &'static str)
        ensures
            s@ == match *self {
                Error::AddressParseFailed => "failed to parse address"@,
                Error::UnsupportedNetworkType => "unable to determine networkType"@,
                Error::UnmarshalMalformed => "malformed candidate attribute"@,
                Error::UnmarshalOutOfRange => "candidate attribute value out of range"@,
            },
    {
        match self {
            Error::AddressParseFailed => "failed to parse address",
            Error::UnsupportedNetworkType => "unable to determine networkType",
            Error::UnmarshalMalformed => "malformed candidate attribute",
            Error::UnmarshalOutOfRange => "candidate attribute value out of range",
        }
    }
}

} // verus!
