//! A multisig account contract: a set of Ed25519 signer keys and the number
//! of them whose signatures authorize the account.
pub mod contract;
pub mod error;
pub mod keys;
pub mod storage;

pub use contract::{AccountSignature, MultisigContract};
pub use error::MultisigError;
