//! The escrow contract: custody of a buyer's payment until release, refund
//! or dispute resolution.
pub mod contract;
pub mod error;
pub mod events;
pub mod laws;
pub mod math;
pub mod signature;
pub mod storage;
pub mod validation;

pub use contract::EscrowContract;
pub use storage::{Config, EscrowData, EscrowStatus};
