use vstd::prelude::*;

verus! {

/// Errors of the multisig contract.
#[derive(Clone, Copy, Debug, PartialEq, Eq, PartialOrd, Ord, Structural)]
pub enum MultisigError {
    /// Contract is already initialized
    AlreadyInitialized,
    /// Contract is not initialized
    NotInitialized,
    /// Unauthorized: caller is not the multisig itself
    Unauthorized,
    /// Invalid threshold (0, or greater than number of signers)
    InvalidThreshold,
    /// Signer public key already registered
    SignerAlreadyExists,
    /// Signer public key not found
    SignerNotFound,
    /// Not enough valid signatures to meet threshold
    InsufficientSignatures,
    /// Signatures are not in strictly ascending order by public key
    InvalidSignatureOrder,
    /// Maximum number of signers reached
    TooManySigners,
    /// Removing this signer would reduce signers below threshold
    ThresholdExceedsSigners,
    /// Signature provided for an address that is not a registered signer
    UnknownSigner,
}

} // verus!
