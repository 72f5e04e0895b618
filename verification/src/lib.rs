//! The bookkeeping of a zero-knowledge virtual machine, verified with Verus.
//!
//! - [`field`]: elements of the BLS12-377 scalar field, computed by
//!   `snarkvm_curves`, with contracts over their residues.
//! - [`circuit`]: variables, linear combinations, the constraint system, its
//!   scopes, the environment that holds them, and the lift of primitive
//!   values into a circuit.
//! - [`ledger`]: confirmed transactions, accepted or rejected, with the rules
//!   on their finalize operations and the way back to the transaction that
//!   was submitted.

pub mod circuit;
pub mod field;
pub mod ledger;
