//! The ways in which assembling or reading a confirmed transaction fails.

use vstd::prelude::*;

verus! {

/// Why a confirmed transaction was refused, or could not be read back.
#[derive(Clone, Copy, Debug, PartialEq, Eq, Hash, Structural)]
pub enum ValidationError {
    /// The transaction is not of the family that the confirmation is for.
    WrongTransactionKind,
    /// The transaction carries no fee where one is needed.
    MissingFee,
    /// An accepted deployment lists a finalize operation other than
    /// `InitializeMapping` and `UpdateKeyValue`.
    InvalidFinalizeOpForDeploy,
    /// An accepted execution lists a finalize operation on a whole mapping.
    InvalidFinalizeOpForExecute,
    /// The number of `InitializeMapping` operations differs from the number
    /// of mappings that the deployed program declares.
    MappingCountMismatch,
    /// The number of `UpdateKeyValue` operations is not what the fee calls
    /// for, or the operations do not add up.
    FinalizeShapeMismatch,
    /// The rejected record is not of the family that the confirmation is for.
    RejectedKindMismatch,
    /// The rejected record holds no deployment.
    MissingDeployment,
    /// The rejected record holds no execution.
    MissingExecution,
    /// The rejected record holds no program owner.
    MissingOwner,
    /// The identifier of the transaction could not be derived.
    IdentifierUnavailable,
}

impl ValidationError {
    /// A sentence that describes the error.
    pub fn message(&self) -> (r: &'static str)
        ensures
            r@ == Self::spec_message(*self)@,
    {
        match self {
            ValidationError::WrongTransactionKind => "The transaction is not of the expected kind",
            ValidationError::MissingFee => "Missing fee for the transaction",
            ValidationError::InvalidFinalizeOpForDeploy => {
                "The deployment contains an invalid finalize operation type"
            },
            ValidationError::InvalidFinalizeOpForExecute => {
                "The execution contains an invalid finalize operation type"
            },
            ValidationError::MappingCountMismatch => {
                "The number of program mappings does not match the number of InitializeMapping operations"
            },
            ValidationError::FinalizeShapeMismatch => {
                "The deployment does not contain the expected number of UpdateKeyValue operations"
            },
            ValidationError::RejectedKindMismatch => "The rejected transaction is not of the expected kind",
            ValidationError::MissingDeployment => "Missing deployment for rejected transaction",
            ValidationError::MissingExecution => "Missing execution for rejected transaction",
            ValidationError::MissingOwner => "Missing program owner for rejected transaction",
            ValidationError::IdentifierUnavailable => "The transaction identifier could not be derived",
        }
    }

    /// The sentence that [`ValidationError::message`] returns.
    pub open spec fn spec_message(e: ValidationError) -> &'static str {
        match e {
            ValidationError::WrongTransactionKind => "The transaction is not of the expected kind",
            ValidationError::MissingFee => "Missing fee for the transaction",
            ValidationError::InvalidFinalizeOpForDeploy => {
                "The deployment contains an invalid finalize operation type"
            },
            ValidationError::InvalidFinalizeOpForExecute => {
                "The execution contains an invalid finalize operation type"
            },
            ValidationError::MappingCountMismatch => {
                "The number of program mappings does not match the number of InitializeMapping operations"
            },
            ValidationError::FinalizeShapeMismatch => {
                "The deployment does not contain the expected number of UpdateKeyValue operations"
            },
            ValidationError::RejectedKindMismatch => "The rejected transaction is not of the expected kind",
            ValidationError::MissingDeployment => "Missing deployment for rejected transaction",
            ValidationError::MissingExecution => "Missing execution for rejected transaction",
            ValidationError::MissingOwner => "Missing program owner for rejected transaction",
            ValidationError::IdentifierUnavailable => "The transaction identifier could not be derived",
        }
    }
}

} // verus!
