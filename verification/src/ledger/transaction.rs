//! The transaction as the confirmation layer sees it: its family, its
//! identifier, and the parts that a confirmation asks for.
//!
//! The identifier of a transaction is the root of a BHP Merkle tree over its
//! leaves. The tree is built by `snarkvm_console`; this module decides which
//! leaves go into it.

use crate::field::Field;
use crate::ledger::error::ValidationError;
use snarkvm_console::network::{Network, Testnet3};
use snarkvm_console::prelude::ToBits;
use snarkvm_console::program::TRANSACTION_DEPTH;
use snarkvm_curves::bls12_377::Fr;
use snarkvm_fields::PrimeField;
use snarkvm_utilities::biginteger::BigInteger256;
use vstd::prelude::*;

verus! {

/// Who deployed a program.
#[derive(Clone, Copy, Debug, PartialEq, Eq, Hash, Structural)]
pub struct ProgramOwner {
    /// The address of the owner.
    pub address: Field,
}

/// A program, as far as a confirmation reads it.
#[derive(Clone, Copy, Debug, PartialEq, Eq, Hash, Structural)]
pub struct Program {
    /// The identifier of the program.
    pub id: Field,
    /// The number of mappings that the program declares.
    pub num_mappings: usize,
}

/// The deployment of a program.
#[derive(Clone, Copy, Debug, PartialEq, Eq, Hash, Structural)]
pub struct Deployment {
    /// The program that is deployed.
    pub program: Program,
}

/// The execution of a program, by its identifier.
#[derive(Clone, Copy, Debug, PartialEq, Eq, Hash, Structural)]
pub struct Execution {
    /// The identifier of the execution.
    pub id: Field,
}

/// The fee transition of a transaction.
#[derive(Clone, Copy, Debug, PartialEq, Eq, Hash, Structural)]
pub struct Fee {
    /// The identifier of the fee transition.
    pub transition_id: Field,
    /// Whether the fee is paid in public, which leaves one update behind.
    pub is_public: bool,
}

/// A leaf of the Merkle tree under a transaction's identifier.
#[derive(Clone, Copy, Debug, PartialEq, Eq, Hash, Structural)]
pub struct TransactionLeaf {
    /// 0 for a deployment, 1 for an execution or a fee.
    pub variant: u8,
    /// The position of the leaf in the tree.
    pub index: u16,
    /// The identifier that the leaf commits to.
    pub id: Field,
}

/// A transaction: a deployment, an execution, or a fee alone.
#[derive(Clone, Copy, Debug, PartialEq, Eq, Hash, Structural)]
pub enum Transaction {
    /// A deployment, as (`id`, `owner`, `deployment`, `fee`).
    Deploy(Field, ProgramOwner, Deployment, Fee),
    /// An execution, as (`id`, `execution`, `fee`).
    Execute(Field, Execution, Option<Fee>),
    /// A fee alone, as (`id`, `fee`).
    Fee(Field, Fee),
}

impl Program {
    /// Returns the identifier of the program.
    pub fn id(&self) -> (r: Field)
        ensures
            r == self.id,
    {
        self.id
    }

    /// Returns the number of mappings that the program declares.
    pub fn num_mappings(&self) -> (r: usize)
        ensures
            r == self.num_mappings,
    {
        self.num_mappings
    }
}

impl Deployment {
    /// Returns the program that is deployed.
    pub fn program(&self) -> (r: &Program)
        ensures
            *r == self.program,
    {
        &self.program
    }
}

impl Fee {
    /// Returns the identifier of the fee transition.
    pub fn transition_id(&self) -> (r: Field)
        ensures
            r == self.transition_id,
    {
        self.transition_id
    }

    /// Returns `true` if the fee is paid in public.
    pub fn is_fee_public(&self) -> (r: bool)
        ensures
            r == self.is_public,
    {
        self.is_public
    }
}

/// The root of the BHP Merkle tree of depth `TRANSACTION_DEPTH` over the
/// given leaves, each a (`variant`, `index`, `id`); `None` where no such tree
/// can be built.
pub uninterp spec fn merkle_root(leaves: Seq<(u8, u16, nat)>) -> Option<nat>;

/// The leaves as plain values.
pub open spec fn leaves_view(leaves: Seq<TransactionLeaf>) -> Seq<(u8, u16, nat)> {
    Seq::new(leaves.len(), |i: int| (leaves[i].variant, leaves[i].index, leaves[i].id@))
}

/// The leaves of a deployment with the given fee: the deployment first.
pub open spec fn deployment_leaves(deployment: Deployment, fee: Option<Fee>) -> Seq<TransactionLeaf> {
    let body = seq![TransactionLeaf { variant: 0, index: 0, id: deployment.program.id }];
    match fee {
        Some(fee) => body.push(TransactionLeaf { variant: 1, index: 1, id: fee.transition_id }),
        None => body,
    }
}

/// The leaves of an execution with the given fee: the execution first.
pub open spec fn execution_leaves(execution: Execution, fee: Option<Fee>) -> Seq<TransactionLeaf> {
    let body = seq![TransactionLeaf { variant: 1, index: 0, id: execution.id }];
    match fee {
        Some(fee) => body.push(TransactionLeaf { variant: 1, index: 1, id: fee.transition_id }),
        None => body,
    }
}

/// The one leaf of a fee alone.
pub open spec fn fee_leaves(fee: Fee) -> Seq<TransactionLeaf> {
    seq![TransactionLeaf { variant: 1, index: 0, id: fee.transition_id }]
}

/// The identifier that a deployment with the given fee has.
pub open spec fn deployment_id(deployment: Deployment, fee: Option<Fee>) -> Option<nat> {
    merkle_root(leaves_view(deployment_leaves(deployment, fee)))
}

/// The identifier that an execution with the given fee has.
pub open spec fn execution_id(execution: Execution, fee: Option<Fee>) -> Option<nat> {
    merkle_root(leaves_view(execution_leaves(execution, fee)))
}

/// The identifier that a fee alone has.
pub open spec fn fee_id(fee: Fee) -> Option<nat> {
    merkle_root(leaves_view(fee_leaves(fee)))
}

/// Builds the tree with `Network::merkle_tree_bhp` of `snarkvm_console`, on
/// `Testnet3`, over the bits of each leaf as `TransactionLeaf::to_bits_le`
/// gives them, and hands out `MerkleTree::root`. The contract claims that
/// the outcome depends on the leaves alone, and gives it the name
/// [`merkle_root`]; `None` stands for the error of the outside call, and of
/// `PrimeField::from_bigint` on an identifier that is not canonical.
#[verifier::external_body]
fn bhp_merkle_root(leaves: &Vec<TransactionLeaf>) -> (r: Option<Field>)
    ensures
        r matches Some(root) ==> root.canonical(),
        match r {
            Some(root) => merkle_root(leaves_view(leaves@)) == Some(root@),
            None => merkle_root(leaves_view(leaves@)) is None,
        },
{
    let mut bits: Vec<Vec<bool>> = Vec::new();
    for leaf in leaves.iter() {
        let id = snarkvm_console::types::Field::new(Fr::from_bigint(BigInteger256(leaf.id.to_limbs()))?);
        let outside = snarkvm_console::program::TransactionLeaf::<Testnet3>::from(leaf.variant, leaf.index, id);
        bits.push(outside.to_bits_le());
    }
    let tree = Testnet3::merkle_tree_bhp::<TRANSACTION_DEPTH>(&bits).ok()?;
    Field::from_limbs(tree.root().to_bigint().0)
}

/// The root over `leaves`, or the error that says that there is none.
pub fn identifier_of(leaves: &Vec<TransactionLeaf>) -> (r: Result<Field, ValidationError>)
    ensures
        identifier_outcome(merkle_root(leaves_view(leaves@)), r),
{
    identifier_from_root(bhp_merkle_root(leaves))
}

/// What is returned for each outcome of the tree: its root, or
/// `IdentifierUnavailable` where there is none.
pub fn identifier_from_root(root: Option<Field>) -> (r: Result<Field, ValidationError>)
    ensures
        r == match root {
            Some(id) => Ok::<Field, ValidationError>(id),
            None => Err::<Field, ValidationError>(ValidationError::IdentifierUnavailable),
        },
{
    match root {
        Some(id) => Ok(id),
        None => Err(ValidationError::IdentifierUnavailable),
    }
}

/// `r` is what a derivation returns where the tree's root is `root`: the
/// root as an identifier, or `IdentifierUnavailable` where there is none.
pub open spec fn identifier_outcome(root: Option<nat>, r: Result<Field, ValidationError>) -> bool {
    match root {
        Some(n) => r matches Ok(id) && id@ == n,
        None => r == Err::<Field, ValidationError>(ValidationError::IdentifierUnavailable),
    }
}

/// `r` is what building a deploy transaction from these parts returns: the
/// transaction with the identifier that the parts give, or
/// `IdentifierUnavailable` where they give none.
pub open spec fn deploy_outcome(
    owner: ProgramOwner,
    deployment: Deployment,
    fee: Fee,
    r: Result<Transaction, ValidationError>,
) -> bool {
    match deployment_id(deployment, Some(fee)) {
        Some(n) => r matches Ok(t) && t.spec_id()@ == n && t == Transaction::Deploy(
            t.spec_id(),
            owner,
            deployment,
            fee,
        ),
        None => r == Err::<Transaction, ValidationError>(ValidationError::IdentifierUnavailable),
    }
}

/// `r` is what building an execute transaction from these parts returns.
pub open spec fn execute_outcome(
    execution: Execution,
    fee: Option<Fee>,
    r: Result<Transaction, ValidationError>,
) -> bool {
    match execution_id(execution, fee) {
        Some(n) => r matches Ok(t) && t.spec_id()@ == n && t == Transaction::Execute(t.spec_id(), execution, fee),
        None => r == Err::<Transaction, ValidationError>(ValidationError::IdentifierUnavailable),
    }
}

/// `r` is what building a fee transaction from this fee returns.
pub open spec fn fee_outcome(fee: Fee, r: Result<Transaction, ValidationError>) -> bool {
    match fee_id(fee) {
        Some(n) => r matches Ok(t) && t.spec_id()@ == n && t == Transaction::Fee(t.spec_id(), fee),
        None => r == Err::<Transaction, ValidationError>(ValidationError::IdentifierUnavailable),
    }
}

impl Transaction {
    /// The identifier that the transaction carries.
    pub open spec fn spec_id(&self) -> Field {
        match *self {
            Transaction::Deploy(id, _, _, _) => id,
            Transaction::Execute(id, _, _) => id,
            Transaction::Fee(id, _) => id,
        }
    }

    /// The fee transition, which an execution may lack.
    pub open spec fn spec_fee_transition(&self) -> Option<Fee> {
        match *self {
            Transaction::Deploy(_, _, _, fee) => Some(fee),
            Transaction::Execute(_, _, fee) => fee,
            Transaction::Fee(_, fee) => Some(fee),
        }
    }

    /// The deployment of a deploy transaction.
    pub open spec fn spec_deployment(&self) -> Option<Deployment> {
        match *self {
            Transaction::Deploy(_, _, deployment, _) => Some(deployment),
            _ => None,
        }
    }

    /// The execution of an execute transaction.
    pub open spec fn spec_execution(&self) -> Option<Execution> {
        match *self {
            Transaction::Execute(_, execution, _) => Some(execution),
            _ => None,
        }
    }

    /// The owner of a deploy transaction.
    pub open spec fn spec_owner(&self) -> Option<ProgramOwner> {
        match *self {
            Transaction::Deploy(_, owner, _, _) => Some(owner),
            _ => None,
        }
    }

    /// The identifier that the parts of the transaction give.
    pub open spec fn derived_id(&self) -> Option<nat> {
        match *self {
            Transaction::Deploy(_, _, deployment, fee) => deployment_id(deployment, Some(fee)),
            Transaction::Execute(_, execution, fee) => execution_id(execution, fee),
            Transaction::Fee(_, fee) => fee_id(fee),
        }
    }

    /// The transaction carries the identifier that its parts give.
    pub open spec fn well_formed(&self) -> bool {
        self.derived_id() == Some(self.spec_id()@)
    }

    /// Returns the identifier of the transaction.
    #[verifier::when_used_as_spec(spec_id)]
    pub fn id(&self) -> (r: Field)
        ensures
            r == self.spec_id(),
    {
        match self {
            Transaction::Deploy(id, _, _, _) => *id,
            Transaction::Execute(id, _, _) => *id,
            Transaction::Fee(id, _) => *id,
        }
    }

    /// Returns `true` if this is a deploy transaction.
    pub fn is_deploy(&self) -> (r: bool)
        ensures
            r == (*self is Deploy),
    {
        match self {
            Transaction::Deploy(..) => true,
            _ => false,
        }
    }

    /// Returns `true` if this is an execute transaction.
    pub fn is_execute(&self) -> (r: bool)
        ensures
            r == (*self is Execute),
    {
        match self {
            Transaction::Execute(..) => true,
            _ => false,
        }
    }

    /// Returns `true` if this is a fee transaction.
    pub fn is_fee(&self) -> (r: bool)
        ensures
            r == (*self is Fee),
    {
        match self {
            Transaction::Fee(..) => true,
            _ => false,
        }
    }

    /// Returns the fee transition, if there is one.
    #[verifier::when_used_as_spec(spec_fee_transition)]
    pub fn fee_transition(&self) -> (r: Option<Fee>)
        ensures
            r == self.spec_fee_transition(),
    {
        match self {
            Transaction::Deploy(_, _, _, fee) => Some(*fee),
            Transaction::Execute(_, _, fee) => *fee,
            Transaction::Fee(_, fee) => Some(*fee),
        }
    }

    /// Returns the deployment, if this is a deploy transaction.
    #[verifier::when_used_as_spec(spec_deployment)]
    pub fn deployment(&self) -> (r: Option<Deployment>)
        ensures
            r == self.spec_deployment(),
    {
        match self {
            Transaction::Deploy(_, _, deployment, _) => Some(*deployment),
            _ => None,
        }
    }

    /// Returns the execution, if this is an execute transaction.
    #[verifier::when_used_as_spec(spec_execution)]
    pub fn execution(&self) -> (r: Option<Execution>)
        ensures
            r == self.spec_execution(),
    {
        match self {
            Transaction::Execute(_, execution, _) => Some(*execution),
            _ => None,
        }
    }

    /// Returns the program owner, if this is a deploy transaction.
    #[verifier::when_used_as_spec(spec_owner)]
    pub fn owner(&self) -> (r: Option<ProgramOwner>)
        ensures
            r == self.spec_owner(),
    {
        match self {
            Transaction::Deploy(_, owner, _, _) => Some(*owner),
            _ => None,
        }
    }

    /// Builds the leaves of a deployment with the given fee.
    pub fn deployment_leaves(deployment: &Deployment, fee: &Option<Fee>) -> (r: Vec<TransactionLeaf>)
        ensures
            r@ == deployment_leaves(*deployment, *fee),
    {
        let mut leaves: Vec<TransactionLeaf> = Vec::new();
        leaves.push(TransactionLeaf { variant: 0, index: 0, id: deployment.program.id });
        match fee {
            Some(fee) => {
                leaves.push(TransactionLeaf { variant: 1, index: 1, id: fee.transition_id });
            },
            None => {},
        }
        assert(leaves@ =~= deployment_leaves(*deployment, *fee));
        leaves
    }

    /// Builds the leaves of an execution with the given fee.
    pub fn execution_leaves(execution: &Execution, fee: &Option<Fee>) -> (r: Vec<TransactionLeaf>)
        ensures
            r@ == execution_leaves(*execution, *fee),
    {
        let mut leaves: Vec<TransactionLeaf> = Vec::new();
        leaves.push(TransactionLeaf { variant: 1, index: 0, id: execution.id });
        match fee {
            Some(fee) => {
                leaves.push(TransactionLeaf { variant: 1, index: 1, id: fee.transition_id });
            },
            None => {},
        }
        assert(leaves@ =~= execution_leaves(*execution, *fee));
        leaves
    }

    /// Builds the one leaf of a fee alone.
    pub fn fee_leaves(fee: &Fee) -> (r: Vec<TransactionLeaf>)
        ensures
            r@ == fee_leaves(*fee),
    {
        let mut leaves: Vec<TransactionLeaf> = Vec::new();
        leaves.push(TransactionLeaf { variant: 1, index: 0, id: fee.transition_id });
        assert(leaves@ =~= fee_leaves(*fee));
        leaves
    }

    /// Builds a deploy transaction, with the identifier that its parts give.
    pub fn from_deployment(owner: ProgramOwner, deployment: Deployment, fee: Fee) -> (r: Result<
        Transaction,
        ValidationError,
    >)
        ensures
            deploy_outcome(owner, deployment, fee, r),
            r matches Ok(t) ==> t.well_formed(),
    {
        let leaves = Self::deployment_leaves(&deployment, &Some(fee));
        match identifier_of(&leaves) {
            Ok(id) => Ok(Transaction::Deploy(id, owner, deployment, fee)),
            Err(e) => Err(e),
        }
    }

    /// Builds an execute transaction, with the identifier that its parts give.
    pub fn from_execution(execution: Execution, fee: Option<Fee>) -> (r: Result<Transaction, ValidationError>)
        ensures
            execute_outcome(execution, fee, r),
            r matches Ok(t) ==> t.well_formed(),
    {
        let leaves = Self::execution_leaves(&execution, &fee);
        match identifier_of(&leaves) {
            Ok(id) => Ok(Transaction::Execute(id, execution, fee)),
            Err(e) => Err(e),
        }
    }

    /// Builds a fee transaction, with the identifier that the fee gives.
    pub fn from_fee(fee: Fee) -> (r: Result<Transaction, ValidationError>)
        ensures
            fee_outcome(fee, r),
            r matches Ok(t) ==> t.well_formed(),
    {
        let leaves = Self::fee_leaves(&fee);
        match identifier_of(&leaves) {
            Ok(id) => Ok(Transaction::Fee(id, fee)),
            Err(e) => Err(e),
        }
    }
}

} // verus!
