//! The error type of the custom account contract and its contract error codes.

use vstd::prelude::*;

verus! {

/// Errors the custom account contract can report to the Soroban
/// authorization framework.
#[derive(Copy, Clone, Debug, PartialEq, Eq, PartialOrd, Ord, Structural)]
pub enum MockAaError {
    /// The presented signature does not authorize the payload.
    BadSignature,
}

/// The contract error code that stands for each error on the ledger.
pub open spec fn error_code(e: MockAaError) -> u32 {
    match e {
        MockAaError::BadSignature => 1,
    }
}

/// The error that a contract error code stands for, if any.
pub open spec fn error_of_code(code: u32) -> Option<MockAaError> {
    if code == 1 {
        Some(MockAaError::BadSignature)
    } else {
        None
    }
}

impl MockAaError {
    /// The contract error code of this error.
    pub fn code(self) -> (code: u32)
        ensures
            code == error_code(self),
    {
        match self {
            MockAaError::BadSignature => 1,
        }
    }

    /// The error a contract error code stands for; `None` for a code that
    /// belongs to no error of this contract.
    pub fn from_code(code: u32) -> (e: Option<MockAaError>)
        ensures
            e == error_of_code(code),
    {
        if code == 1 {
            Some(MockAaError::BadSignature)
        } else {
            None
        }
    }
}

/// Decoding the code of an error gives the error back, and a code decodes
/// to an error only if that error's code is the code: codes and errors are
/// in one-to-one correspondence.
pub proof fn lemma_error_code_round_trip(e: MockAaError, code: u32)
    ensures
        error_of_code(error_code(e)) == Some(e),
        error_of_code(code) == Some(e) ==> error_code(e) == code,
{
}

} // verus!
