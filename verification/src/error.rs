//! The two ways in which deriving an address can fail.

use vstd::prelude::*;
use vstd::string::StringExecFns;

verus! {

/// Why an address could not be derived. Each kind carries a message for the
/// caller; no partial address is ever returned beside it.
#[derive(Debug)]
pub enum AddressingError {
    /// The hash provider failed.
    HashError(String),
    /// An identifier or a hex string did not have the required shape.
    InvalidInput(String),
}

impl AddressingError {
    /// The message that the error carries, whatever its kind.
    pub open spec fn message(&self) -> Seq<char> {
        match self {
            AddressingError::HashError(msg) => msg@,
            AddressingError::InvalidInput(msg) => msg@,
        }
    }

    /// The text shown for the error: a heading for its kind, then its message.
    pub open spec fn description(&self) -> Seq<char> {
        match self {
            AddressingError::HashError(msg) => "failed to produce hash: "@ + msg@,
            AddressingError::InvalidInput(msg) => "addressing input is invalid: "@ + msg@,
        }
    }

    /// Renders the error as text.
    pub fn describe(&self) -> (text: String)
        ensures
            text@ == self.description(),
    {
        match self {
            AddressingError::HashError(msg) => {
                String::from_str("failed to produce hash: ").concat(msg.as_str())
            },
            AddressingError::InvalidInput(msg) => {
                String::from_str("addressing input is invalid: ").concat(msg.as_str())
            },
        }
    }
}

} // verus!
