//! Sanitized transactions: validated, immutable transactions with their
//! account locks and signature checks.

pub mod account_keys;
pub mod address_loader;
pub mod error;
pub mod keys;
pub mod laws;
pub mod legacy;
pub mod program_ids;
pub mod sanitized;
pub mod sanitized_message;
pub mod simple_vote;
pub mod transaction;
pub mod v0;
pub mod versioned;
pub mod wire;

pub use crate::error::{AddressLoaderError, SanitizeError, TransactionError};
pub use crate::keys::{Pubkey, Signature};
pub use crate::sanitized::{
    MessageHash, SanitizedTransaction, TransactionAccountLocks, MAX_TX_ACCOUNT_LOCKS,
};
pub use crate::sanitized_message::SanitizedMessage;
