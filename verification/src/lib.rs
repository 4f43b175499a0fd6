//! Escrow and multisig account logic for Soroban contracts, written as
//! verified state transitions over plain values.
pub mod address;
pub mod escrow;
pub mod multisig;
