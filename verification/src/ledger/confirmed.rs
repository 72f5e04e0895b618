//! The confirmed transaction: a transaction that was accepted, with the
//! finalize operations it left behind, or the fee of one that was rejected,
//! with what was rejected.

use crate::field::Field;
use crate::ledger::error::ValidationError;
use crate::ledger::finalize::{
    all_deploy_ops, all_key_value_ops, count_initialize, count_update, lemma_deploy_counts_add_up, FinalizeOperation,
};
use crate::ledger::rejected::Rejected;
use crate::ledger::transaction::{deploy_outcome, execute_outcome, identifier_outcome, Fee, Transaction};
use vstd::prelude::*;

verus! {

/// The confirmed transaction.
#[derive(Debug, PartialEq, Eq)]
pub enum ConfirmedTransaction {
    /// The accepted deploy transaction is composed of `(index, deploy_transaction, finalize_operations)`.
    AcceptedDeploy(u32, Transaction, Vec<FinalizeOperation>),
    /// The accepted execute transaction is composed of `(index, execute_transaction, finalize_operations)`.
    AcceptedExecute(u32, Transaction, Vec<FinalizeOperation>),
    /// The rejected deploy transaction is composed of `(index, fee_transaction, rejected_deployment)`.
    RejectedDeploy(u32, Transaction, Rejected),
    /// The rejected execute transaction is composed of `(index, fee_transaction, rejected_execution)`.
    RejectedExecute(u32, Transaction, Rejected),
}

/// The number of `UpdateKeyValue` operations that a fee leaves behind: one
/// where it is paid in public, none where it is not.
pub open spec fn fee_updates(fee: Fee) -> nat {
    if fee.is_public {
        1
    } else {
        0
    }
}

/// Why `accepted_deploy` refuses the transaction with these operations, or
/// `None` where it accepts them. The first condition that fails decides.
pub open spec fn deploy_refusal(transaction: Transaction, ops: Seq<FinalizeOperation>) -> Option<ValidationError> {
    match transaction {
        Transaction::Deploy(_, _, deployment, fee) => {
            if !all_deploy_ops(ops) {
                Some(ValidationError::InvalidFinalizeOpForDeploy)
            } else if count_initialize(ops) != deployment.program.num_mappings {
                Some(ValidationError::MappingCountMismatch)
            } else if count_update(ops) != fee_updates(fee) || count_initialize(ops) + count_update(ops)
                != ops.len() {
                Some(ValidationError::FinalizeShapeMismatch)
            } else {
                None
            }
        },
        _ => Some(ValidationError::WrongTransactionKind),
    }
}

/// Why `accepted_execute` refuses the transaction with these operations, or
/// `None` where it accepts them. The operations come before the family.
pub open spec fn execute_refusal(transaction: Transaction, ops: Seq<FinalizeOperation>) -> Option<ValidationError> {
    if !all_key_value_ops(ops) {
        Some(ValidationError::InvalidFinalizeOpForExecute)
    } else if !(transaction is Execute) {
        Some(ValidationError::WrongTransactionKind)
    } else {
        None
    }
}

/// Why `rejected_deploy` refuses the pair, or `None` where it accepts it.
pub open spec fn rejected_deploy_refusal(transaction: Transaction, rejected: Rejected) -> Option<ValidationError> {
    if !(rejected is Deployment) {
        Some(ValidationError::RejectedKindMismatch)
    } else if !(transaction is Fee) {
        Some(ValidationError::WrongTransactionKind)
    } else {
        None
    }
}

/// Why `rejected_execute` refuses the pair, or `None` where it accepts it.
pub open spec fn rejected_execute_refusal(transaction: Transaction, rejected: Rejected) -> Option<ValidationError> {
    if !(rejected is Execution) {
        Some(ValidationError::RejectedKindMismatch)
    } else if !(transaction is Fee) {
        Some(ValidationError::WrongTransactionKind)
    } else {
        None
    }
}

/// Counts the `InitializeMapping` and the `UpdateKeyValue` operations, or
/// finds that there is an operation of another kind.
pub fn count_deploy_operations(ops: &Vec<FinalizeOperation>) -> (r: Option<(usize, usize)>)
    ensures
        r is Some <==> all_deploy_ops(ops@),
        r matches Some((init, update)) ==> init == count_initialize(ops@) && update == count_update(ops@)
            && init + update == ops@.len(),
{
    let mut init: usize = 0;
    let mut update: usize = 0;
    let mut i: usize = 0;
    while i < ops.len()
        invariant
            i <= ops.len(),
            all_deploy_ops(ops@.take(i as int)),
            init == count_initialize(ops@.take(i as int)),
            update == count_update(ops@.take(i as int)),
            init + update == i,
        decreases ops.len() - i,
    {
        proof {
            assert(ops@.take(i + 1).drop_last() =~= ops@.take(i as int));
            assert(ops@.take(i + 1).last() == ops@[i as int]);
        }
        match ops[i] {
            FinalizeOperation::InitializeMapping(..) => {
                init = init + 1;
            },
            FinalizeOperation::UpdateKeyValue(..) => {
                update = update + 1;
            },
            _ => {
                assert(!ops@[i as int].spec_is_deploy_op());
                return None;
            },
        }
        proof {
            let next = ops@.take(i + 1);
            assert forall|j: int| 0 <= j < next.len() implies (#[trigger] next[j]).spec_is_deploy_op() by {
                if j < i {
                    assert(ops@.take(i as int)[j] == next[j]);
                }
            }
        }
        i = i + 1;
    }
    assert(ops@.take(i as int) =~= ops@);
    Some((init, update))
}

/// Whether every operation acts on one key-value leaf.
pub fn only_key_value_operations(ops: &Vec<FinalizeOperation>) -> (r: bool)
    ensures
        r == all_key_value_ops(ops@),
{
    let mut i: usize = 0;
    while i < ops.len()
        invariant
            i <= ops.len(),
            forall|j: int| 0 <= j < i ==> (#[trigger] ops@[j]).spec_is_key_value(),
        decreases ops.len() - i,
    {
        if !ops[i].is_key_value() {
            return false;
        }
        i = i + 1;
    }
    true
}

impl ConfirmedTransaction {
    /// Returns a new instance of an accepted deploy transaction.
    ///
    /// The transaction has to be a deployment with a fee. Its operations may
    /// only be `InitializeMapping`, one for each mapping of the program, and
    /// `UpdateKeyValue`, one if the fee is public and none otherwise.
    pub fn accepted_deploy(index: u32, transaction: Transaction, finalize_operations: Vec<FinalizeOperation>) -> (r:
        Result<ConfirmedTransaction, ValidationError>)
        ensures
            match r {
                Ok(confirmed) => deploy_refusal(transaction, finalize_operations@) is None && confirmed
                    == ConfirmedTransaction::AcceptedDeploy(index, transaction, finalize_operations),
                Err(e) => deploy_refusal(transaction, finalize_operations@) == Some(e),
            },
            r matches Ok(confirmed) ==> confirmed.spec_is_accepted() && !confirmed.spec_is_rejected()
                && confirmed.well_formed(),
            r matches Ok(confirmed) ==> transaction.spec_deployment() matches Some(deployment) && count_initialize(
                finalize_operations@,
            ) == deployment.program.num_mappings,
    {
        // Retrieve the program from the deployment, and ensure the transaction is a deploy transaction.
        let program = match transaction.deployment() {
            Some(deployment) => *deployment.program(),
            None => {
                return Err(ValidationError::WrongTransactionKind);
            },
        };
        // Determine the number of finalize operations for the fee transition.
        let num_fee_finalize_operations: usize = match transaction.fee_transition() {
            Some(fee) => if fee.is_fee_public() {
                1
            } else {
                0
            },
            None => {
                return Err(ValidationError::MissingFee);
            },
        };
        // Count the number of initialize mapping and update key-value operations.
        let (initialize_mapping_count, update_key_value_count) = match count_deploy_operations(&finalize_operations) {
            Some((init, update)) => (init, update),
            None => {
                return Err(ValidationError::InvalidFinalizeOpForDeploy);
            },
        };
        let num_operations = finalize_operations.len();
        // Ensure the number of program mappings matches the number of initialize mapping operations.
        if program.num_mappings() != initialize_mapping_count {
            return Err(ValidationError::MappingCountMismatch);
        }
        // Ensure the number of finalize operations matches the number of initialize mapping and update
        // key-value operations.
        if update_key_value_count != num_fee_finalize_operations || initialize_mapping_count
            + update_key_value_count != num_operations {
            return Err(ValidationError::FinalizeShapeMismatch);
        }
        // Return the accepted deploy transaction.
        Ok(ConfirmedTransaction::AcceptedDeploy(index, transaction, finalize_operations))
    }

    /// Returns a new instance of an accepted execute transaction.
    ///
    /// The operations may only act on key-value leaves, and the transaction
    /// has to be an execution.
    pub fn accepted_execute(index: u32, transaction: Transaction, finalize_operations: Vec<FinalizeOperation>) -> (r:
        Result<ConfirmedTransaction, ValidationError>)
        ensures
            match r {
                Ok(confirmed) => execute_refusal(transaction, finalize_operations@) is None && confirmed
                    == ConfirmedTransaction::AcceptedExecute(index, transaction, finalize_operations),
                Err(e) => execute_refusal(transaction, finalize_operations@) == Some(e),
            },
            r matches Ok(confirmed) ==> confirmed.spec_is_accepted() && !confirmed.spec_is_rejected()
                && confirmed.well_formed(),
    {
        // Ensure the finalize operations contain the correct types.
        if !only_key_value_operations(&finalize_operations) {
            return Err(ValidationError::InvalidFinalizeOpForExecute);
        }
        // Ensure the transaction is an execute transaction.
        if transaction.is_execute() {
            Ok(ConfirmedTransaction::AcceptedExecute(index, transaction, finalize_operations))
        } else {
            Err(ValidationError::WrongTransactionKind)
        }
    }

    /// Returns a new instance of a rejected deploy transaction.
    pub fn rejected_deploy(index: u32, transaction: Transaction, rejected: Rejected) -> (r: Result<
        ConfirmedTransaction,
        ValidationError,
    >)
        ensures
            match r {
                Ok(confirmed) => rejected_deploy_refusal(transaction, rejected) is None && confirmed
                    == ConfirmedTransaction::RejectedDeploy(index, transaction, rejected),
                Err(e) => rejected_deploy_refusal(transaction, rejected) == Some(e),
            },
            r matches Ok(confirmed) ==> confirmed.spec_is_rejected() && confirmed.well_formed(),
    {
        if !rejected.is_deployment() {
            return Err(ValidationError::RejectedKindMismatch);
        }
        // Ensure the transaction is a fee transaction.
        if transaction.is_fee() {
            Ok(ConfirmedTransaction::RejectedDeploy(index, transaction, rejected))
        } else {
            Err(ValidationError::WrongTransactionKind)
        }
    }

    /// Returns a new instance of a rejected execute transaction.
    pub fn rejected_execute(index: u32, transaction: Transaction, rejected: Rejected) -> (r: Result<
        ConfirmedTransaction,
        ValidationError,
    >)
        ensures
            match r {
                Ok(confirmed) => rejected_execute_refusal(transaction, rejected) is None && confirmed
                    == ConfirmedTransaction::RejectedExecute(index, transaction, rejected),
                Err(e) => rejected_execute_refusal(transaction, rejected) == Some(e),
            },
            r matches Ok(confirmed) ==> confirmed.spec_is_rejected() && confirmed.well_formed(),
    {
        if !rejected.is_execution() {
            return Err(ValidationError::RejectedKindMismatch);
        }
        // Ensure the transaction is a fee transaction.
        if transaction.is_fee() {
            Ok(ConfirmedTransaction::RejectedExecute(index, transaction, rejected))
        } else {
            Err(ValidationError::WrongTransactionKind)
        }
    }
}

impl ConfirmedTransaction {
    /// The confirmation is one that its constructor accepts.
    pub open spec fn well_formed(&self) -> bool {
        match *self {
            ConfirmedTransaction::AcceptedDeploy(_, transaction, ops) => deploy_refusal(transaction, ops@) is None,
            ConfirmedTransaction::AcceptedExecute(_, transaction, ops) => execute_refusal(transaction, ops@) is None,
            ConfirmedTransaction::RejectedDeploy(_, transaction, rejected) => rejected_deploy_refusal(
                transaction,
                rejected,
            ) is None,
            ConfirmedTransaction::RejectedExecute(_, transaction, rejected) => rejected_execute_refusal(
                transaction,
                rejected,
            ) is None,
        }
    }

    /// The transaction was accepted.
    pub open spec fn spec_is_accepted(&self) -> bool {
        *self is AcceptedDeploy || *self is AcceptedExecute
    }

    /// The transaction was rejected.
    pub open spec fn spec_is_rejected(&self) -> bool {
        *self is RejectedDeploy || *self is RejectedExecute
    }

    /// The position of the transaction in its block.
    pub open spec fn spec_index(&self) -> u32 {
        match *self {
            ConfirmedTransaction::AcceptedDeploy(index, _, _) => index,
            ConfirmedTransaction::AcceptedExecute(index, _, _) => index,
            ConfirmedTransaction::RejectedDeploy(index, _, _) => index,
            ConfirmedTransaction::RejectedExecute(index, _, _) => index,
        }
    }

    /// The transaction that is stored: the one that was accepted, or the
    /// fee of the one that was rejected.
    pub open spec fn spec_transaction(&self) -> Transaction {
        match *self {
            ConfirmedTransaction::AcceptedDeploy(_, transaction, _) => transaction,
            ConfirmedTransaction::AcceptedExecute(_, transaction, _) => transaction,
            ConfirmedTransaction::RejectedDeploy(_, transaction, _) => transaction,
            ConfirmedTransaction::RejectedExecute(_, transaction, _) => transaction,
        }
    }

    /// The finalize operations of an accepted transaction.
    pub open spec fn spec_finalize_operations(&self) -> Option<Seq<FinalizeOperation>> {
        match *self {
            ConfirmedTransaction::AcceptedDeploy(_, _, ops) => Some(ops@),
            ConfirmedTransaction::AcceptedExecute(_, _, ops) => Some(ops@),
            _ => None,
        }
    }

    /// What was rejected, where the transaction was rejected.
    pub open spec fn spec_rejected(&self) -> Option<Rejected> {
        match *self {
            ConfirmedTransaction::RejectedDeploy(_, _, rejected) => Some(rejected),
            ConfirmedTransaction::RejectedExecute(_, _, rejected) => Some(rejected),
            _ => None,
        }
    }

    /// The name of the variant.
    pub open spec fn spec_variant(&self) -> Seq<char> {
        match *self {
            ConfirmedTransaction::AcceptedDeploy(..) => "accepted deploy"@,
            ConfirmedTransaction::AcceptedExecute(..) => "accepted execute"@,
            ConfirmedTransaction::RejectedDeploy(..) => "rejected deploy"@,
            ConfirmedTransaction::RejectedExecute(..) => "rejected execute"@,
        }
    }

    /// The identifier that the transaction had before it was confirmed, or
    /// `None` where it cannot be derived.
    pub open spec fn spec_unconfirmed_id(&self) -> Option<nat> {
        match *self {
            ConfirmedTransaction::AcceptedDeploy(_, transaction, _) => Some(transaction.spec_id()@),
            ConfirmedTransaction::AcceptedExecute(_, transaction, _) => Some(transaction.spec_id()@),
            ConfirmedTransaction::RejectedDeploy(_, fee_transaction, rejected) => rejected.unconfirmed_id(
                fee_transaction.spec_fee_transition(),
            ),
            ConfirmedTransaction::RejectedExecute(_, fee_transaction, rejected) => rejected.unconfirmed_id(
                fee_transaction.spec_fee_transition(),
            ),
        }
    }

    /// `r` is what [`ConfirmedTransaction::unconfirmed_transaction`] returns:
    /// the stored transaction where it was accepted; where it was rejected,
    /// the transaction built again from what was rejected and the stored
    /// fee, or the error for the first part that is missing.
    pub open spec fn unconfirmed_transaction_outcome(&self, r: Result<Transaction, ValidationError>) -> bool {
        match *self {
            ConfirmedTransaction::AcceptedDeploy(_, transaction, _) => r == Ok::<Transaction, ValidationError>(
                transaction,
            ),
            ConfirmedTransaction::AcceptedExecute(_, transaction, _) => r == Ok::<Transaction, ValidationError>(
                transaction,
            ),
            ConfirmedTransaction::RejectedDeploy(_, fee_transaction, rejected) => {
                let fee = fee_transaction.spec_fee_transition();
                match (rejected.spec_program_owner(), rejected.spec_deployment(), fee) {
                    (None, _, _) => r == Err::<Transaction, ValidationError>(ValidationError::MissingOwner),
                    (Some(_), None, _) => r == Err::<Transaction, ValidationError>(
                        ValidationError::MissingDeployment,
                    ),
                    (Some(_), Some(_), None) => r == Err::<Transaction, ValidationError>(ValidationError::MissingFee),
                    (Some(owner), Some(deployment), Some(fee)) => deploy_outcome(owner, deployment, fee, r),
                }
            },
            ConfirmedTransaction::RejectedExecute(_, fee_transaction, rejected) => {
                match rejected.spec_execution() {
                    None => r == Err::<Transaction, ValidationError>(ValidationError::MissingExecution),
                    Some(execution) => execute_outcome(execution, fee_transaction.spec_fee_transition(), r),
                }
            },
        }
    }

    /// Returns 'true' if the confirmed transaction is accepted.
    #[verifier::when_used_as_spec(spec_is_accepted)]
    pub fn is_accepted(&self) -> (r: bool)
        ensures
            r == self.spec_is_accepted(),
    {
        match self {
            ConfirmedTransaction::AcceptedDeploy(..) | ConfirmedTransaction::AcceptedExecute(..) => true,
            ConfirmedTransaction::RejectedDeploy(..) | ConfirmedTransaction::RejectedExecute(..) => false,
        }
    }

    /// Returns 'true' if the confirmed transaction is rejected.
    #[verifier::when_used_as_spec(spec_is_rejected)]
    pub fn is_rejected(&self) -> (r: bool)
        ensures
            r == self.spec_is_rejected(),
            r == !self.spec_is_accepted(),
    {
        !self.is_accepted()
    }

    /// Returns the confirmed transaction index.
    #[verifier::when_used_as_spec(spec_index)]
    pub fn index(&self) -> (r: u32)
        ensures
            r == self.spec_index(),
    {
        match self {
            ConfirmedTransaction::AcceptedDeploy(index, ..) => *index,
            ConfirmedTransaction::AcceptedExecute(index, ..) => *index,
            ConfirmedTransaction::RejectedDeploy(index, ..) => *index,
            ConfirmedTransaction::RejectedExecute(index, ..) => *index,
        }
    }

    /// Returns the human-readable variant of the confirmed transaction.
    pub fn variant(&self) -> (r: &'static str)
        ensures
            r@ == self.spec_variant(),
    {
        match self {
            ConfirmedTransaction::AcceptedDeploy(..) => "accepted deploy",
            ConfirmedTransaction::AcceptedExecute(..) => "accepted execute",
            ConfirmedTransaction::RejectedDeploy(..) => "rejected deploy",
            ConfirmedTransaction::RejectedExecute(..) => "rejected execute",
        }
    }

    /// Returns the transaction.
    pub fn transaction(&self) -> (r: &Transaction)
        ensures
            *r == self.spec_transaction(),
    {
        match self {
            ConfirmedTransaction::AcceptedDeploy(_, transaction, _) => transaction,
            ConfirmedTransaction::AcceptedExecute(_, transaction, _) => transaction,
            ConfirmedTransaction::RejectedDeploy(_, transaction, _) => transaction,
            ConfirmedTransaction::RejectedExecute(_, transaction, _) => transaction,
        }
    }

    /// Returns the transaction.
    pub fn into_transaction(self) -> (r: Transaction)
        ensures
            r == self.spec_transaction(),
    {
        match self {
            ConfirmedTransaction::AcceptedDeploy(_, transaction, _) => transaction,
            ConfirmedTransaction::AcceptedExecute(_, transaction, _) => transaction,
            ConfirmedTransaction::RejectedDeploy(_, transaction, _) => transaction,
            ConfirmedTransaction::RejectedExecute(_, transaction, _) => transaction,
        }
    }

    /// Returns the number of finalize operations.
    pub fn num_finalize(&self) -> (r: usize)
        ensures
            r == match self.spec_finalize_operations() {
                Some(ops) => ops.len(),
                None => 0,
            },
    {
        match self {
            ConfirmedTransaction::AcceptedDeploy(_, _, finalize)
            | ConfirmedTransaction::AcceptedExecute(_, _, finalize) => finalize.len(),
            ConfirmedTransaction::RejectedDeploy(..) | ConfirmedTransaction::RejectedExecute(..) => 0,
        }
    }

    /// Returns the finalize operations for the confirmed transaction.
    pub fn finalize_operations(&self) -> (r: Option<&Vec<FinalizeOperation>>)
        ensures
            r is Some <==> self.spec_is_accepted(),
            match r {
                Some(ops) => self.spec_finalize_operations() == Some(ops@),
                None => self.spec_finalize_operations() is None,
            },
    {
        match self {
            ConfirmedTransaction::AcceptedDeploy(_, _, finalize) => Some(finalize),
            ConfirmedTransaction::AcceptedExecute(_, _, finalize) => Some(finalize),
            ConfirmedTransaction::RejectedDeploy(..) | ConfirmedTransaction::RejectedExecute(..) => None,
        }
    }

    /// Returns the unconfirmed transaction ID, which is defined as the transaction ID prior to confirmation.
    /// When a transaction is rejected, its fee transition is used to construct the confirmed transaction ID,
    /// changing the transaction ID that was submitted.
    pub fn unconfirmed_id(&self) -> (r: Result<Field, ValidationError>)
        ensures
            identifier_outcome(self.spec_unconfirmed_id(), r),
            self.spec_is_accepted() ==> r == Ok::<Field, ValidationError>(self.spec_transaction().spec_id()),
    {
        match self {
            ConfirmedTransaction::AcceptedDeploy(_, transaction, _) => Ok(transaction.id()),
            ConfirmedTransaction::AcceptedExecute(_, transaction, _) => Ok(transaction.id()),
            ConfirmedTransaction::RejectedDeploy(_, fee_transaction, rejected)
            | ConfirmedTransaction::RejectedExecute(_, fee_transaction, rejected) => {
                rejected.to_unconfirmed_id(&fee_transaction.fee_transition())
            },
        }
    }

    /// Returns the unconfirmed transaction, which is defined as the transaction prior to confirmation.
    /// When a transaction is rejected, its fee transition is used to construct the confirmed transaction,
    /// changing the transaction that was submitted.
    pub fn unconfirmed_transaction(&self) -> (r: Result<Transaction, ValidationError>)
        ensures
            self.unconfirmed_transaction_outcome(r),
    {
        match self {
            ConfirmedTransaction::AcceptedDeploy(_, transaction, _) => Ok(*transaction),
            ConfirmedTransaction::AcceptedExecute(_, transaction, _) => Ok(*transaction),
            ConfirmedTransaction::RejectedDeploy(_, fee_transaction, rejected) => {
                let program_owner = match rejected.program_owner() {
                    Some(program_owner) => program_owner,
                    None => {
                        return Err(ValidationError::MissingOwner);
                    },
                };
                let rejected_deployment = match rejected.deployment() {
                    Some(deployment) => deployment,
                    None => {
                        return Err(ValidationError::MissingDeployment);
                    },
                };
                let fee = match fee_transaction.fee_transition() {
                    Some(fee) => fee,
                    None => {
                        return Err(ValidationError::MissingFee);
                    },
                };
                Transaction::from_deployment(program_owner, rejected_deployment, fee)
            },
            ConfirmedTransaction::RejectedExecute(_, fee_transaction, rejected) => {
                let rejected_execution = match rejected.execution() {
                    Some(execution) => execution,
                    None => {
                        return Err(ValidationError::MissingExecution);
                    },
                };
                Transaction::from_execution(rejected_execution, fee_transaction.fee_transition())
            },
        }
    }
}

impl Clone for ConfirmedTransaction {
    /// The copy is of the same variant and holds the same parts.
    fn clone(&self) -> (r: ConfirmedTransaction)
        ensures
            r.spec_variant() == self.spec_variant(),
            r.spec_index() == self.spec_index(),
            r.spec_transaction() == self.spec_transaction(),
            r.spec_finalize_operations() == self.spec_finalize_operations(),
            r.spec_rejected() == self.spec_rejected(),
            r.well_formed() == self.well_formed(),
    {
        match self {
            ConfirmedTransaction::AcceptedDeploy(index, transaction, finalize) => {
                let copy = finalize.clone();
                assert(copy@ =~= finalize@);
                ConfirmedTransaction::AcceptedDeploy(*index, *transaction, copy)
            },
            ConfirmedTransaction::AcceptedExecute(index, transaction, finalize) => {
                let copy = finalize.clone();
                assert(copy@ =~= finalize@);
                ConfirmedTransaction::AcceptedExecute(*index, *transaction, copy)
            },
            ConfirmedTransaction::RejectedDeploy(index, transaction, rejected) => {
                ConfirmedTransaction::RejectedDeploy(*index, *transaction, *rejected)
            },
            ConfirmedTransaction::RejectedExecute(index, transaction, rejected) => {
                ConfirmedTransaction::RejectedExecute(*index, *transaction, *rejected)
            },
        }
    }
}

impl core::ops::Deref for ConfirmedTransaction {
    type Target = Transaction;

    /// Returns a reference to the valid transaction.
    fn deref(&self) -> (r: &Transaction)
        ensures
            *r == self.spec_transaction(),
    {
        self.transaction()
    }
}

/// Once every operation of a deployment is an `InitializeMapping` or an
/// `UpdateKeyValue`, and there is one `InitializeMapping` for each mapping,
/// the shape is wrong exactly where the number of `UpdateKeyValue`
/// operations is not what the fee leaves behind: the operations always add
/// up.
pub proof fn law_deploy_shape(transaction: Transaction, ops: Seq<FinalizeOperation>)
    requires
        transaction is Deploy,
    ensures
        deploy_refusal(transaction, ops) == Some(ValidationError::FinalizeShapeMismatch) <==> all_deploy_ops(ops)
            && count_initialize(ops) == transaction.spec_deployment()->0.program.num_mappings && count_update(ops)
            != fee_updates(transaction.spec_fee_transition()->0),
        deploy_refusal(transaction, ops) is None <==> all_deploy_ops(ops) && count_initialize(ops)
            == transaction.spec_deployment()->0.program.num_mappings && count_update(ops) == fee_updates(
            transaction.spec_fee_transition()->0,
        ),
{
    if all_deploy_ops(ops) {
        lemma_deploy_counts_add_up(ops);
    }
}

/// An accepted confirmation keeps the transaction as it was: the unconfirmed
/// identifier is the stored transaction's own, and the unconfirmed
/// transaction is the stored one.
pub proof fn law_accepted_keeps_transaction(confirmed: ConfirmedTransaction, r: Result<Transaction, ValidationError>)
    requires
        confirmed.spec_is_accepted(),
    ensures
        confirmed.spec_unconfirmed_id() == Some(confirmed.spec_transaction().spec_id()@),
        confirmed.unconfirmed_transaction_outcome(r) <==> r == Ok::<Transaction, ValidationError>(
            confirmed.spec_transaction(),
        ),
{
}

/// A confirmation is either accepted or rejected, never both, and it lists
/// finalize operations exactly where it is accepted.
pub proof fn law_accepted_or_rejected(confirmed: ConfirmedTransaction)
    ensures
        confirmed.spec_is_accepted() != confirmed.spec_is_rejected(),
        confirmed.spec_finalize_operations() is Some <==> confirmed.spec_is_accepted(),
{
}

/// A rejected confirmation that its constructor accepted lacks none of the
/// parts that the unconfirmed transaction is built from.
pub proof fn law_rejected_parts_present(confirmed: ConfirmedTransaction)
    requires
        confirmed.spec_is_rejected(),
        confirmed.well_formed(),
    ensures
        confirmed.spec_transaction().spec_fee_transition() is Some,
        confirmed matches ConfirmedTransaction::RejectedDeploy(_, _, rejected) ==> rejected.spec_program_owner()
            is Some && rejected.spec_deployment() is Some,
        confirmed matches ConfirmedTransaction::RejectedExecute(_, _, rejected) ==> rejected.spec_execution()
            is Some,
{
}

/// The rejection of a deployment gives back what was submitted. Let
/// `submitted` be a deploy transaction that carries the identifier of its
/// parts, and let the confirmation hold its fee alone together with its
/// owner and deployment. Then the constructor accepts the confirmation, its
/// unconfirmed identifier is the identifier of `submitted`, and its
/// unconfirmed transaction is `submitted`. The unconfirmed identifier differs
/// from that of the stored fee transaction exactly where the two
/// transactions' identifiers differ.
pub proof fn law_rejected_deploy_restores_submitted(submitted: Transaction, fee_transaction: Transaction, index: u32)
    requires
        submitted.well_formed(),
        submitted is Deploy,
        fee_transaction is Fee,
        fee_transaction.spec_fee_transition() == submitted.spec_fee_transition(),
    ensures
        ({
            let confirmed = ConfirmedTransaction::RejectedDeploy(
                index,
                fee_transaction,
                Rejected::Deployment(submitted.spec_owner()->0, submitted.spec_deployment()->0),
            );
            &&& confirmed.well_formed()
            &&& confirmed.spec_unconfirmed_id() == Some(submitted.spec_id()@)
            &&& confirmed.unconfirmed_transaction_outcome(Ok(submitted))
            &&& (confirmed.spec_unconfirmed_id() != Some(confirmed.spec_transaction().spec_id()@)
                <==> submitted.spec_id() != fee_transaction.spec_id())
        }),
{
    Field::lemma_view_injective(submitted.spec_id(), fee_transaction.spec_id());
}

/// The rejection of an execution gives back what was submitted. Let
/// `submitted` be an execute transaction with a fee that carries the
/// identifier of its parts, and let the confirmation hold its fee alone
/// together with its execution. Then the constructor accepts the
/// confirmation, its unconfirmed identifier is the identifier of `submitted`,
/// and its unconfirmed transaction is `submitted`. The unconfirmed identifier
/// differs from that of the stored fee transaction exactly where the two
/// transactions' identifiers differ.
pub proof fn law_rejected_execute_restores_submitted(submitted: Transaction, fee_transaction: Transaction, index: u32)
    requires
        submitted.well_formed(),
        submitted is Execute,
        submitted.spec_fee_transition() is Some,
        fee_transaction is Fee,
        fee_transaction.spec_fee_transition() == submitted.spec_fee_transition(),
    ensures
        ({
            let confirmed = ConfirmedTransaction::RejectedExecute(
                index,
                fee_transaction,
                Rejected::Execution(submitted.spec_execution()->0),
            );
            &&& confirmed.well_formed()
            &&& confirmed.spec_unconfirmed_id() == Some(submitted.spec_id()@)
            &&& confirmed.unconfirmed_transaction_outcome(Ok(submitted))
            &&& (confirmed.spec_unconfirmed_id() != Some(confirmed.spec_transaction().spec_id()@)
                <==> submitted.spec_id() != fee_transaction.spec_id())
        }),
{
    Field::lemma_view_injective(submitted.spec_id(), fee_transaction.spec_id());
}

} // verus!
