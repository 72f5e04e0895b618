//! Building an arithmetic circuit: variables of three modes, linear
//! combinations of them, and a constraint system that records what was
//! allocated and enforced, under named scopes.

pub mod constraint_system;
pub mod environment;
pub mod inject;
pub mod linear_combination;
pub mod mode;
pub mod scope;
pub mod variable;

pub use constraint_system::{Constraint, ConstraintSystem};
pub use environment::Circuit;
pub use inject::Inject;
pub use linear_combination::LinearCombination;
pub use mode::Mode;
pub use scope::CircuitScope;
pub use variable::Variable;
