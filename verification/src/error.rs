//! The failure modes of the tick query operation.

use vstd::prelude::*;
use vstd::string::StringExecFns;

verus! {

/// An error returned by the tick query operation. Every failure is terminal:
/// the operation performs no retries of its own.
#[derive(Debug, PartialEq, Eq)]
pub enum Error {
    /// The pool address was the all-zero sentinel.
    InvalidPoolAddress,
    /// The lower tick bound exceeded the upper bound.
    InvalidTickRange,
    /// A tick bound fell outside the tick type's representable range.
    TicksOutOfRange,
    /// The remote contract call failed; the string describes the underlying
    /// cause and is diagnostic only.
    ContractCall(String),
}

impl Error {
    /// The characters of the human-readable description of this error.
    pub open spec fn message_spec(&self) -> Seq<char> {
        match self {
            Error::InvalidPoolAddress => "Invalid pool address"@,
            Error::InvalidTickRange => "Invalid tick range"@,
            Error::TicksOutOfRange => "Ticks out of range"@,
            Error::ContractCall(d) => "Contract call failed: "@ + d@,
        }
    }

    /// Renders the error as a human-readable string.
    pub fn message(&self) -> (r: String)
        ensures
            r@ == self.message_spec(),
    {
        match self {
            Error::InvalidPoolAddress => String::from_str("Invalid pool address"),
            Error::InvalidTickRange => String::from_str("Invalid tick range"),
            Error::TicksOutOfRange => String::from_str("Ticks out of range"),
            Error::ContractCall(d) => String::from_str("Contract call failed: ").concat(
                d.as_str(),
            ),
        }
    }
}

} // verus!
