//! A threshold-approval authorization engine.
//!
//! A fixed group of owners jointly approves proposed transactions. A
//! transaction counts as executed once at least a threshold of the owners
//! have approved it, and can be executed only once.

pub mod engine;
pub mod error;
pub mod keys;
pub mod laws;
pub mod rules;
pub mod state;

pub use error::ErrorCode;
pub use state::{Multisig, Transaction, TransactionAccount, TransactionInstruction};
pub use engine::{approve, create_transaction, execute_transaction, initialize};
