use circuit_ledger::field::Field;
use circuit_ledger::ledger::{
    ConfirmedTransaction, Deployment, Execution, Fee, FinalizeOperation, Program, ProgramOwner, Rejected, Transaction,
    ValidationError,
};

fn f(x: u64) -> Field {
    Field::from_u64(x)
}

fn sample_fee(is_fee_private: bool, seed: u64) -> Fee {
    Fee { transition_id: f(1_000 + seed), is_public: !is_fee_private }
}

fn sample_deployment(num_mappings: usize, seed: u64) -> Deployment {
    Deployment { program: Program { id: f(2_000 + seed), num_mappings } }
}

fn sample_deployment_transaction(is_fee_private: bool, seed: u64) -> Transaction {
    let owner = ProgramOwner { address: f(3_000 + seed) };
    Transaction::from_deployment(owner, sample_deployment(1, seed), sample_fee(is_fee_private, seed)).unwrap()
}

fn sample_execution_transaction_with_fee(is_fee_private: bool, seed: u64) -> Transaction {
    Transaction::from_execution(Execution { id: f(4_000 + seed) }, Some(sample_fee(is_fee_private, seed))).unwrap()
}

fn sample_fee_transaction(is_fee_private: bool, seed: u64) -> Transaction {
    Transaction::from_fee(sample_fee(is_fee_private, 50 + seed)).unwrap()
}

fn sample_accepted_deploy(index: u32, is_fee_private: bool, seed: u64) -> ConfirmedTransaction {
    let tx = sample_deployment_transaction(is_fee_private, seed);
    let finalize_operations = match is_fee_private {
        true => vec![FinalizeOperation::InitializeMapping(f(7))],
        false => {
            vec![FinalizeOperation::InitializeMapping(f(7)), FinalizeOperation::UpdateKeyValue(f(8), 9, f(10), f(11))]
        }
    };
    ConfirmedTransaction::accepted_deploy(index, tx, finalize_operations).unwrap()
}

fn sample_accepted_execute(index: u32, is_fee_private: bool, seed: u64) -> ConfirmedTransaction {
    let tx = sample_execution_transaction_with_fee(is_fee_private, seed);
    ConfirmedTransaction::accepted_execute(index, tx, vec![]).unwrap()
}

fn sample_rejected_deploy(index: u32, is_fee_private: bool, seed: u64) -> ConfirmedTransaction {
    let fee_transaction = sample_fee_transaction(is_fee_private, seed);
    let rejected = Rejected::new_deployment(ProgramOwner { address: f(3_000 + seed) }, sample_deployment(1, seed));
    ConfirmedTransaction::rejected_deploy(index, fee_transaction, rejected).unwrap()
}

fn sample_rejected_execute(index: u32, is_fee_private: bool, seed: u64) -> ConfirmedTransaction {
    let fee_transaction = sample_fee_transaction(is_fee_private, seed);
    let rejected = Rejected::new_execution(Execution { id: f(4_000 + seed) });
    ConfirmedTransaction::rejected_execute(index, fee_transaction, rejected).unwrap()
}

#[test]
fn test_accepted_execute() {
    let index = 0x9e37_79b9u32;
    let tx = sample_execution_transaction_with_fee(true, 1);

    // Create an `AcceptedExecution` with valid `FinalizeOperation`s.
    let finalize_operations = vec![
        FinalizeOperation::InsertKeyValue(f(21), f(22), f(23)),
        FinalizeOperation::UpdateKeyValue(f(24), 25, f(26), f(27)),
        FinalizeOperation::RemoveKeyValue(f(28), 29),
    ];
    let confirmed = ConfirmedTransaction::accepted_execute(index, tx.clone(), finalize_operations.clone()).unwrap();

    assert_eq!(confirmed.index(), index);
    assert_eq!(confirmed.transaction(), &tx);
    assert_eq!(confirmed.num_finalize(), finalize_operations.len());
    assert_eq!(confirmed.finalize_operations().unwrap(), &finalize_operations);

    // Attempt to create an `AcceptedExecution` with invalid `FinalizeOperation`s.
    let finalize_operations = vec![FinalizeOperation::InitializeMapping(f(30))];
    let confirmed = ConfirmedTransaction::accepted_execute(index, tx.clone(), finalize_operations);
    assert!(confirmed.is_err());

    let finalize_operations = vec![FinalizeOperation::RemoveMapping(f(31))];
    let confirmed = ConfirmedTransaction::accepted_execute(index, tx, finalize_operations);
    assert!(confirmed.is_err());
}

#[test]
fn test_unconfirmed_transaction_ids() {
    // Ensure that the unconfirmed transaction ID of an accepted deployment is equivalent to its confirmed transaction ID.
    let accepted_deploy = sample_accepted_deploy(11, true, 1);
    assert_eq!(accepted_deploy.unconfirmed_id().unwrap(), accepted_deploy.id());
    let accepted_deploy = sample_accepted_deploy(12, false, 2);
    assert_eq!(accepted_deploy.unconfirmed_id().unwrap(), accepted_deploy.id());

    // Ensure that the unconfirmed transaction ID of an accepted execute is equivalent to its confirmed transaction ID.
    let accepted_execution = sample_accepted_execute(13, true, 3);
    assert_eq!(accepted_execution.unconfirmed_id().unwrap(), accepted_execution.id());
    let accepted_execution = sample_accepted_execute(14, false, 4);
    assert_eq!(accepted_execution.unconfirmed_id().unwrap(), accepted_execution.id());

    // Ensure that the unconfirmed transaction ID of a rejected deployment is not equivalent to its confirmed transaction ID.
    let rejected_deploy = sample_rejected_deploy(15, true, 5);
    assert_ne!(rejected_deploy.unconfirmed_id().unwrap(), rejected_deploy.id());
    let rejected_deploy = sample_rejected_deploy(16, false, 6);
    assert_ne!(rejected_deploy.unconfirmed_id().unwrap(), rejected_deploy.id());

    // Ensure that the unconfirmed transaction ID of a rejected execute is not equivalent to its confirmed transaction ID.
    let rejected_execution = sample_rejected_execute(17, true, 7);
    assert_ne!(rejected_execution.unconfirmed_id().unwrap(), rejected_execution.id());
    let rejected_execution = sample_rejected_execute(18, false, 8);
    assert_ne!(rejected_execution.unconfirmed_id().unwrap(), rejected_execution.id());
}

#[test]
fn test_unconfirmed_transactions() {
    // Ensure that the unconfirmed transaction of an accepted deployment is equivalent to its confirmed transaction.
    let accepted_deploy = sample_accepted_deploy(21, true, 1);
    assert_eq!(&accepted_deploy.unconfirmed_transaction().unwrap(), accepted_deploy.transaction());
    let accepted_deploy = sample_accepted_deploy(22, false, 2);
    assert_eq!(&accepted_deploy.unconfirmed_transaction().unwrap(), accepted_deploy.transaction());

    // Ensure that the unconfirmed transaction of an accepted execute is equivalent to its confirmed transaction.
    let accepted_execution = sample_accepted_execute(23, true, 3);
    assert_eq!(&accepted_execution.unconfirmed_transaction().unwrap(), accepted_execution.transaction());
    let accepted_execution = sample_accepted_execute(24, false, 4);
    assert_eq!(&accepted_execution.unconfirmed_transaction().unwrap(), accepted_execution.transaction());

    // Ensure that the unconfirmed transaction of a rejected deployment is not equivalent to its confirmed transaction.
    let deployment_transaction = sample_deployment_transaction(true, 5);
    let rejected = Rejected::new_deployment(
        deployment_transaction.owner().unwrap(),
        deployment_transaction.deployment().unwrap().clone(),
    );
    let fee = Transaction::from_fee(deployment_transaction.fee_transition().unwrap()).unwrap();
    let rejected_deploy = ConfirmedTransaction::rejected_deploy(25, fee, rejected).unwrap();
    assert_eq!(rejected_deploy.unconfirmed_id().unwrap(), deployment_transaction.id());
    assert_eq!(rejected_deploy.unconfirmed_transaction().unwrap(), deployment_transaction);
    let deployment_transaction = sample_deployment_transaction(false, 6);
    let rejected = Rejected::new_deployment(
        deployment_transaction.owner().unwrap(),
        deployment_transaction.deployment().unwrap().clone(),
    );
    let fee = Transaction::from_fee(deployment_transaction.fee_transition().unwrap()).unwrap();
    let rejected_deploy = ConfirmedTransaction::rejected_deploy(26, fee, rejected).unwrap();
    assert_eq!(rejected_deploy.unconfirmed_id().unwrap(), deployment_transaction.id());
    assert_eq!(rejected_deploy.unconfirmed_transaction().unwrap(), deployment_transaction);

    // Ensure that the unconfirmed transaction of a rejected execute is not equivalent to its confirmed transaction.
    let execution_transaction = sample_execution_transaction_with_fee(true, 7);
    let rejected = Rejected::new_execution(execution_transaction.execution().unwrap().clone());
    let fee = Transaction::from_fee(execution_transaction.fee_transition().unwrap()).unwrap();
    let rejected_execute = ConfirmedTransaction::rejected_execute(27, fee, rejected).unwrap();
    assert_eq!(rejected_execute.unconfirmed_id().unwrap(), execution_transaction.id());
    assert_eq!(rejected_execute.unconfirmed_transaction().unwrap(), execution_transaction);
    let execution_transaction = sample_execution_transaction_with_fee(false, 8);
    let rejected = Rejected::new_execution(execution_transaction.execution().unwrap().clone());
    let fee = Transaction::from_fee(execution_transaction.fee_transition().unwrap()).unwrap();
    let rejected_execute = ConfirmedTransaction::rejected_execute(28, fee, rejected).unwrap();
    assert_eq!(rejected_execute.unconfirmed_id().unwrap(), execution_transaction.id());
    assert_eq!(rejected_execute.unconfirmed_transaction().unwrap(), execution_transaction);
}

#[test]
fn accepted_execute_reports_its_parts() {
    let tx = sample_execution_transaction_with_fee(true, 9);
    let ops = vec![
        FinalizeOperation::InsertKeyValue(f(1), f(2), f(3)),
        FinalizeOperation::UpdateKeyValue(f(4), 5, f(6), f(7)),
        FinalizeOperation::RemoveKeyValue(f(8), 9),
    ];
    let confirmed = ConfirmedTransaction::accepted_execute(42, tx, ops).unwrap();
    assert_eq!(confirmed.index(), 42);
    assert_eq!(confirmed.variant(), "accepted execute");
    assert_eq!(confirmed.num_finalize(), 3);
    assert_eq!(confirmed.unconfirmed_id().unwrap(), tx.id());
    assert!(confirmed.is_accepted());
    assert!(!confirmed.is_rejected());
}

#[test]
fn accepted_execute_refuses_mapping_operations() {
    let tx = sample_execution_transaction_with_fee(true, 9);
    assert_eq!(
        ConfirmedTransaction::accepted_execute(42, tx, vec![FinalizeOperation::InitializeMapping(f(1))]),
        Err(ValidationError::InvalidFinalizeOpForExecute)
    );
    assert_eq!(
        ConfirmedTransaction::accepted_execute(42, tx, vec![FinalizeOperation::RemoveMapping(f(1))]),
        Err(ValidationError::InvalidFinalizeOpForExecute)
    );
    assert_eq!(
        ConfirmedTransaction::accepted_execute(42, tx, vec![FinalizeOperation::ReplaceMapping(f(1))]),
        Err(ValidationError::InvalidFinalizeOpForExecute)
    );
}

#[test]
fn accepted_deploy_checks_the_shape_of_the_operations() {
    let owner = ProgramOwner { address: f(1) };
    let deployment = sample_deployment(3, 0);
    let tx = Transaction::from_deployment(owner, deployment, sample_fee(false, 0)).unwrap();
    let init = |n: u64| FinalizeOperation::InitializeMapping(f(n));
    let update = |n: u64| FinalizeOperation::UpdateKeyValue(f(n), n, f(n + 1), f(n + 2));

    let confirmed = ConfirmedTransaction::accepted_deploy(5, tx, vec![init(1), init(2), init(3), update(4)]).unwrap();
    assert_eq!(confirmed.variant(), "accepted deploy");
    assert_eq!(confirmed.index(), 5);
    assert_eq!(confirmed.num_finalize(), 4);
    assert!(confirmed.is_accepted() && !confirmed.is_rejected());
    // The order of the operations does not matter.
    assert!(ConfirmedTransaction::accepted_deploy(5, tx, vec![update(4), init(1), init(2), init(3)]).is_ok());

    assert_eq!(
        ConfirmedTransaction::accepted_deploy(5, tx, vec![init(1), init(2), update(4)]),
        Err(ValidationError::MappingCountMismatch)
    );
    assert_eq!(
        ConfirmedTransaction::accepted_deploy(5, tx, vec![init(1), init(2), init(3), init(4), update(4)]),
        Err(ValidationError::MappingCountMismatch)
    );
    assert_eq!(
        ConfirmedTransaction::accepted_deploy(5, tx, vec![init(1), init(2), init(3), update(4), update(5)]),
        Err(ValidationError::FinalizeShapeMismatch)
    );
    assert_eq!(
        ConfirmedTransaction::accepted_deploy(5, tx, vec![init(1), init(2), init(3)]),
        Err(ValidationError::FinalizeShapeMismatch)
    );
    assert_eq!(
        ConfirmedTransaction::accepted_deploy(
            5,
            tx,
            vec![init(1), init(2), init(3), update(4), FinalizeOperation::InsertKeyValue(f(1), f(2), f(3))]
        ),
        Err(ValidationError::InvalidFinalizeOpForDeploy)
    );
    assert_eq!(
        ConfirmedTransaction::accepted_deploy(5, tx, vec![FinalizeOperation::RemoveKeyValue(f(1), 2)]),
        Err(ValidationError::InvalidFinalizeOpForDeploy)
    );
}

#[test]
fn accepted_deploy_with_a_private_fee_takes_no_update() {
    let owner = ProgramOwner { address: f(1) };
    let tx = Transaction::from_deployment(owner, sample_deployment(0, 0), sample_fee(true, 0)).unwrap();
    let confirmed = ConfirmedTransaction::accepted_deploy(0, tx, vec![]).unwrap();
    assert_eq!(confirmed.num_finalize(), 0);
    assert_eq!(confirmed.finalize_operations(), Some(&vec![]));
    assert_eq!(
        ConfirmedTransaction::accepted_deploy(0, tx, vec![FinalizeOperation::UpdateKeyValue(f(1), 2, f(3), f(4))]),
        Err(ValidationError::FinalizeShapeMismatch)
    );
}

#[test]
fn constructors_refuse_the_wrong_family() {
    let deploy = sample_deployment_transaction(true, 1);
    let execute = sample_execution_transaction_with_fee(true, 1);
    let fee = sample_fee_transaction(true, 1);
    let rejected_deployment = Rejected::new_deployment(ProgramOwner { address: f(1) }, sample_deployment(1, 1));
    let rejected_execution = Rejected::new_execution(Execution { id: f(2) });

    assert_eq!(ConfirmedTransaction::accepted_deploy(0, execute, vec![]), Err(ValidationError::WrongTransactionKind));
    assert_eq!(ConfirmedTransaction::accepted_deploy(0, fee, vec![]), Err(ValidationError::WrongTransactionKind));
    assert_eq!(ConfirmedTransaction::accepted_execute(0, deploy, vec![]), Err(ValidationError::WrongTransactionKind));
    assert_eq!(ConfirmedTransaction::accepted_execute(0, fee, vec![]), Err(ValidationError::WrongTransactionKind));
    // The operations of an execution are checked before its family.
    assert_eq!(
        ConfirmedTransaction::accepted_execute(0, deploy, vec![FinalizeOperation::InitializeMapping(f(1))]),
        Err(ValidationError::InvalidFinalizeOpForExecute)
    );
    // The family of a deployment is checked before its operations.
    assert_eq!(
        ConfirmedTransaction::accepted_deploy(0, execute, vec![FinalizeOperation::RemoveMapping(f(1))]),
        Err(ValidationError::WrongTransactionKind)
    );

    assert_eq!(
        ConfirmedTransaction::rejected_deploy(0, fee, rejected_execution),
        Err(ValidationError::RejectedKindMismatch)
    );
    assert_eq!(
        ConfirmedTransaction::rejected_execute(0, fee, rejected_deployment),
        Err(ValidationError::RejectedKindMismatch)
    );
    assert_eq!(
        ConfirmedTransaction::rejected_deploy(0, deploy, rejected_deployment),
        Err(ValidationError::WrongTransactionKind)
    );
    assert_eq!(
        ConfirmedTransaction::rejected_execute(0, execute, rejected_execution),
        Err(ValidationError::WrongTransactionKind)
    );
    // What was rejected is checked before the fee transaction.
    assert_eq!(
        ConfirmedTransaction::rejected_deploy(0, deploy, rejected_execution),
        Err(ValidationError::RejectedKindMismatch)
    );
}

#[test]
fn rejected_confirmations_report_their_parts() {
    let deploy = sample_rejected_deploy(2, false, 1);
    assert_eq!(deploy.variant(), "rejected deploy");
    assert_eq!(deploy.index(), 2);
    assert_eq!(deploy.num_finalize(), 0);
    assert_eq!(deploy.finalize_operations(), None);
    assert!(deploy.is_rejected() && !deploy.is_accepted());
    assert!(deploy.transaction().is_fee());
    assert_eq!(deploy.clone().into_transaction(), *deploy.transaction());

    let execute = sample_rejected_execute(3, true, 1);
    assert_eq!(execute.variant(), "rejected execute");
    assert_eq!(execute.index(), 3);
    assert_eq!(execute.num_finalize(), 0);
    assert_eq!(execute.finalize_operations(), None);
    assert!(execute.is_rejected() && !execute.is_accepted());
}

#[test]
fn rejected_deploy_restores_the_submitted_transaction() {
    let submitted = sample_deployment_transaction(false, 77);
    let rejected = Rejected::new_deployment(submitted.owner().unwrap(), submitted.deployment().unwrap());
    let fee_only = Transaction::from_fee(submitted.fee_transition().unwrap()).unwrap();
    let confirmed = ConfirmedTransaction::rejected_deploy(9, fee_only, rejected).unwrap();
    assert_eq!(confirmed.unconfirmed_id().unwrap(), submitted.id());
    assert_eq!(confirmed.unconfirmed_transaction().unwrap(), submitted);
    assert_ne!(confirmed.transaction().id(), submitted.id());
    assert_ne!(confirmed.unconfirmed_id().unwrap(), confirmed.transaction().id());
    assert_eq!(confirmed.transaction(), &fee_only);
}

#[test]
fn missing_parts_are_reported() {
    let fee = sample_fee_transaction(true, 1);
    let execute_without_fee = Transaction::from_execution(Execution { id: f(5) }, None).unwrap();
    let rejected_deployment = Rejected::new_deployment(ProgramOwner { address: f(1) }, sample_deployment(1, 1));
    let rejected_execution = Rejected::new_execution(Execution { id: f(2) });

    let no_owner = ConfirmedTransaction::RejectedDeploy(0, fee, rejected_execution);
    assert_eq!(no_owner.unconfirmed_transaction(), Err(ValidationError::MissingOwner));
    let no_fee = ConfirmedTransaction::RejectedDeploy(0, execute_without_fee, rejected_deployment);
    assert_eq!(no_fee.unconfirmed_transaction(), Err(ValidationError::MissingFee));
    let no_execution = ConfirmedTransaction::RejectedExecute(0, fee, rejected_deployment);
    assert_eq!(no_execution.unconfirmed_transaction(), Err(ValidationError::MissingExecution));
    // A rejected execution is built again with or without a fee.
    let without_fee = ConfirmedTransaction::RejectedExecute(0, execute_without_fee, Rejected::new_execution(Execution { id: f(5) }));
    assert_eq!(without_fee.unconfirmed_transaction(), Ok(execute_without_fee));
    assert_eq!(without_fee.unconfirmed_id(), Ok(execute_without_fee.id()));
}

#[test]
fn identifiers_depend_on_every_part() {
    let owner = ProgramOwner { address: f(1) };
    let other_owner = ProgramOwner { address: f(2) };
    let deployment = sample_deployment(1, 0);
    let fee = sample_fee(true, 0);
    let same = Transaction::from_deployment(owner, deployment, fee).unwrap();
    let again = Transaction::from_deployment(owner, deployment, fee).unwrap();
    assert_eq!(same, again);
    // The identifier is a digest, not one of the identifiers that went in.
    assert_ne!(same.id(), deployment.program.id);
    assert_ne!(same.id(), fee.transition_id);
    assert_ne!(Transaction::from_fee(fee).unwrap().id(), fee.transition_id);
    // The owner is no part of the identifier; the deployment and the fee are.
    assert_eq!(Transaction::from_deployment(other_owner, deployment, fee).unwrap().id(), same.id());
    assert_ne!(Transaction::from_deployment(owner, sample_deployment(1, 1), fee).unwrap().id(), same.id());
    assert_ne!(Transaction::from_deployment(owner, deployment, sample_fee(true, 1)).unwrap().id(), same.id());
    // A deployment and an execution of the same identifier differ in the kind of their leaf.
    let execution = Execution { id: deployment.program.id };
    assert_ne!(Transaction::from_execution(execution, Some(fee)).unwrap().id(), same.id());
    assert_ne!(
        Transaction::from_execution(execution, None).unwrap().id(),
        Transaction::from_execution(execution, Some(fee)).unwrap().id()
    );
    // An execution without a fee and a fee alone have the same one leaf.
    assert_eq!(
        Transaction::from_execution(Execution { id: fee.transition_id }, None).unwrap().id(),
        Transaction::from_fee(fee).unwrap().id()
    );
    assert_eq!(
        Rejected::new_deployment(owner, deployment).to_unconfirmed_id(&Some(fee)),
        Ok(same.id())
    );
    assert_eq!(
        Rejected::new_execution(execution).to_unconfirmed_id(&None),
        Ok(Transaction::from_execution(execution, None).unwrap().id())
    );
}

#[test]
fn transactions_hand_out_their_parts() {
    let owner = ProgramOwner { address: f(1) };
    let deployment = sample_deployment(2, 0);
    let fee = sample_fee(false, 0);
    let execution = Execution { id: f(3) };
    let deploy = Transaction::from_deployment(owner, deployment, fee).unwrap();
    let execute = Transaction::from_execution(execution, None).unwrap();
    let fee_only = Transaction::from_fee(fee).unwrap();

    assert!(deploy.is_deploy() && !deploy.is_execute() && !deploy.is_fee());
    assert!(execute.is_execute() && !execute.is_deploy() && !execute.is_fee());
    assert!(fee_only.is_fee() && !fee_only.is_deploy() && !fee_only.is_execute());
    assert_eq!((deploy.owner(), deploy.deployment(), deploy.execution()), (Some(owner), Some(deployment), None));
    assert_eq!((execute.owner(), execute.deployment(), execute.execution()), (None, None, Some(execution)));
    assert_eq!((fee_only.owner(), fee_only.deployment(), fee_only.execution()), (None, None, None));
    assert_eq!((deploy.fee_transition(), execute.fee_transition(), fee_only.fee_transition()), (Some(fee), None, Some(fee)));

    let rejected = Rejected::new_deployment(owner, deployment);
    assert!(rejected.is_deployment() && !rejected.is_execution());
    assert_eq!((rejected.program_owner(), rejected.deployment(), rejected.execution()), (Some(owner), Some(deployment), None));
    let rejected = Rejected::new_execution(execution);
    assert!(rejected.is_execution() && !rejected.is_deployment());
    assert_eq!((rejected.program_owner(), rejected.deployment(), rejected.execution()), (None, None, Some(execution)));
}

#[test]
fn errors_describe_themselves() {
    assert_eq!(ValidationError::MissingFee.message(), "Missing fee for the transaction");
    assert_eq!(ValidationError::MissingOwner.message(), "Missing program owner for rejected transaction");
    assert_eq!(ValidationError::MissingDeployment.message(), "Missing deployment for rejected transaction");
    assert_eq!(ValidationError::MissingExecution.message(), "Missing execution for rejected transaction");
    assert_eq!(
        ValidationError::IdentifierUnavailable.message(),
        "The transaction identifier could not be derived"
    );
}
