//! The error type shared by every fallible step of the construction.

use vstd::prelude::*;

verus! {

/// Why a payout contract could not be constructed.
#[derive(Debug, Clone, Copy, PartialEq, Eq, Structural)]
pub enum Error {
    /// The public keys cannot be aggregated, or the joint key cannot be
    /// bound to the commitment root.
    Setup,
    /// A commitment hash or a key does not have its fixed length or
    /// encoding.
    Validation,
    /// The commitment tree could not be assembled from the scripts.
    TreeBuild,
}

impl Error {
    /// A short description of the failure.
    pub fn message(&self) -> (text: &'static str)
        ensures
            text@ == match *self {
                Error::Setup => "invalid public keys for key aggregation"@,
                Error::Validation => "malformed hash or key material"@,
                Error::TreeBuild => "taproot tree could not be built"@,
            },
    {
        match self {
            Error::Setup => "invalid public keys for key aggregation",
            Error::Validation => "malformed hash or key material",
            Error::TreeBuild => "taproot tree could not be built",
        }
    }
}

} // verus!
