//! What is kept of a transaction that was rejected: its deployment or its
//! execution, without the fee.

use crate::field::Field;
use crate::ledger::error::ValidationError;
use crate::ledger::transaction::{
    deployment_id, execution_id, identifier_of, identifier_outcome, Deployment, Execution, Fee, ProgramOwner,
    Transaction,
};
use vstd::prelude::*;

verus! {

/// The rejected part of a transaction.
#[derive(Clone, Copy, Debug, PartialEq, Eq, Hash, Structural)]
pub enum Rejected {
    /// A rejected deployment, as (`program owner`, `deployment`).
    Deployment(ProgramOwner, Deployment),
    /// A rejected execution.
    Execution(Execution),
}

impl Rejected {
    /// The program owner of a rejected deployment.
    pub open spec fn spec_program_owner(&self) -> Option<ProgramOwner> {
        match *self {
            Rejected::Deployment(owner, _) => Some(owner),
            Rejected::Execution(_) => None,
        }
    }

    /// The deployment of a rejected deployment.
    pub open spec fn spec_deployment(&self) -> Option<Deployment> {
        match *self {
            Rejected::Deployment(_, deployment) => Some(deployment),
            Rejected::Execution(_) => None,
        }
    }

    /// The execution of a rejected execution.
    pub open spec fn spec_execution(&self) -> Option<Execution> {
        match *self {
            Rejected::Deployment(_, _) => None,
            Rejected::Execution(execution) => Some(execution),
        }
    }

    /// The identifier that the transaction had before it was rejected, given
    /// the fee that it came with.
    pub open spec fn unconfirmed_id(&self, fee: Option<Fee>) -> Option<nat> {
        match *self {
            Rejected::Deployment(_, deployment) => deployment_id(deployment, fee),
            Rejected::Execution(execution) => execution_id(execution, fee),
        }
    }

    /// Wraps a rejected deployment.
    pub fn new_deployment(program_owner: ProgramOwner, deployment: Deployment) -> (r: Rejected)
        ensures
            r == Rejected::Deployment(program_owner, deployment),
    {
        Rejected::Deployment(program_owner, deployment)
    }

    /// Wraps a rejected execution.
    pub fn new_execution(execution: Execution) -> (r: Rejected)
        ensures
            r == Rejected::Execution(execution),
    {
        Rejected::Execution(execution)
    }

    /// Returns `true` if a deployment was rejected.
    pub fn is_deployment(&self) -> (r: bool)
        ensures
            r == (*self is Deployment),
    {
        match self {
            Rejected::Deployment(..) => true,
            Rejected::Execution(..) => false,
        }
    }

    /// Returns `true` if an execution was rejected.
    pub fn is_execution(&self) -> (r: bool)
        ensures
            r == (*self is Execution),
    {
        match self {
            Rejected::Deployment(..) => false,
            Rejected::Execution(..) => true,
        }
    }

    /// Returns the program owner, if a deployment was rejected.
    #[verifier::when_used_as_spec(spec_program_owner)]
    pub fn program_owner(&self) -> (r: Option<ProgramOwner>)
        ensures
            r == self.spec_program_owner(),
    {
        match self {
            Rejected::Deployment(owner, _) => Some(*owner),
            Rejected::Execution(_) => None,
        }
    }

    /// Returns the deployment, if a deployment was rejected.
    #[verifier::when_used_as_spec(spec_deployment)]
    pub fn deployment(&self) -> (r: Option<Deployment>)
        ensures
            r == self.spec_deployment(),
    {
        match self {
            Rejected::Deployment(_, deployment) => Some(*deployment),
            Rejected::Execution(_) => None,
        }
    }

    /// Returns the execution, if an execution was rejected.
    #[verifier::when_used_as_spec(spec_execution)]
    pub fn execution(&self) -> (r: Option<Execution>)
        ensures
            r == self.spec_execution(),
    {
        match self {
            Rejected::Deployment(_, _) => None,
            Rejected::Execution(execution) => Some(*execution),
        }
    }

    /// Derives the identifier that the transaction had before it was
    /// rejected, from what was kept of it and the fee that it came with.
    pub fn to_unconfirmed_id(&self, fee: &Option<Fee>) -> (r: Result<Field, ValidationError>)
        ensures
            identifier_outcome(self.unconfirmed_id(*fee), r),
    {
        match self {
            Rejected::Deployment(_, deployment) => {
                let leaves = Transaction::deployment_leaves(deployment, fee);
                identifier_of(&leaves)
            },
            Rejected::Execution(execution) => {
                let leaves = Transaction::execution_leaves(execution, fee);
                identifier_of(&leaves)
            },
        }
    }
}

} // verus!
