//! Ledger rules of the PulsarTrack contracts on Stellar.

pub mod address;
pub mod admin;
pub mod bytes;
pub mod host;
pub mod operation;
pub mod recurring_payment;
pub mod requests;
pub mod table;
pub mod timelock_executor;
pub mod wrapped_token;
