//! Confirmed transactions: a transaction together with the outcome of its
//! confirmation, and the rules that a confirmation has to meet.

pub mod confirmed;
pub mod error;
pub mod finalize;
pub mod rejected;
pub mod transaction;

pub use confirmed::ConfirmedTransaction;
pub use error::ValidationError;
pub use finalize::FinalizeOperation;
pub use rejected::Rejected;
pub use transaction::{Deployment, Execution, Fee, Program, ProgramOwner, Transaction, TransactionLeaf};
