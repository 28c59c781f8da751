//! The custom account contract: an account abstraction signer that stands in
//! for a contract guardian (a multisig or policy-gated wallet).

use vstd::prelude::*;

use crate::error::MockAaError;

verus! {

/// A custom account contract whose authorization check accepts every
/// signature on every payload, so that a contract address can act as a
/// guardian the same way a keypair address does.
pub struct MockAaAccount;

impl MockAaAccount {
    /// Checks a signature over `signature_payload` for the given
    /// authorization contexts: this account approves every request, so the
    /// check succeeds whatever the payload, the signature and the contexts.
    pub fn __check_auth<S, C>(signature_payload: [u8; 32], signature: S, auth_contexts: C) -> (r:
        Result<(), MockAaError>)
        ensures
            r == Ok::<(), MockAaError>(()),
    {
        Ok(())
    }
}

} // verus!
