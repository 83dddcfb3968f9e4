//! The ways in which an operation of the account is refused.

use vstd::prelude::*;

verus! {

/// Why an operation was refused. A refused operation changes nothing.
#[derive(Clone, Copy, Debug, PartialEq, Eq, Structural)]
pub enum ContractError {
    /// The account was constructed before.
    AlreadyInitialized,
    /// No owner account is configured, so nobody can attest directly.
    UserAccountNotFound,
    /// The signature is not one over the current nonce under the account's
    /// key and tag.
    InvalidSignature,
    /// The key, the nonce or the tag that a verification needs is not set.
    MissingKeyMaterial,
    /// The list of public keys is empty, or one of them does not encode a
    /// point of the curve.
    InvalidPublicKey,
}

} // verus!
