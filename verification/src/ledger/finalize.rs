//! Finalize operations: the changes to on-chain key-value state that a
//! transaction leaves behind. Only the kind of an operation matters here.

use crate::field::Field;
use vstd::prelude::*;

verus! {

/// A change to the on-chain mappings, with the identifiers it refers to.
#[derive(Clone, Copy, Debug, PartialEq, Eq, Hash, Structural)]
pub enum FinalizeOperation {
    /// Adds a mapping to the program, as (`mapping ID`).
    InitializeMapping(Field),
    /// Inserts a key-value leaf, as (`mapping ID`, `key ID`, `value ID`).
    InsertKeyValue(Field, Field, Field),
    /// Updates a key-value leaf, as (`mapping ID`, `index`, `key ID`, `value ID`).
    UpdateKeyValue(Field, u64, Field, Field),
    /// Removes a key-value leaf, as (`mapping ID`, `index`).
    RemoveKeyValue(Field, u64),
    /// Replaces a mapping of the program, as (`mapping ID`).
    ReplaceMapping(Field),
    /// Removes a mapping from the program, as (`mapping ID`).
    RemoveMapping(Field),
}

impl FinalizeOperation {
    /// An operation on one key-value leaf: the only kind that an execution
    /// may leave behind.
    pub open spec fn spec_is_key_value(&self) -> bool {
        *self is InsertKeyValue || *self is UpdateKeyValue || *self is RemoveKeyValue
    }

    /// An operation that a deployment may leave behind.
    pub open spec fn spec_is_deploy_op(&self) -> bool {
        *self is InitializeMapping || *self is UpdateKeyValue
    }

    /// Whether this operation acts on one key-value leaf.
    #[verifier::when_used_as_spec(spec_is_key_value)]
    pub fn is_key_value(&self) -> (r: bool)
        ensures
            r == self.spec_is_key_value(),
    {
        match self {
            FinalizeOperation::InsertKeyValue(..)
            | FinalizeOperation::UpdateKeyValue(..)
            | FinalizeOperation::RemoveKeyValue(..) => true,
            FinalizeOperation::InitializeMapping(..)
            | FinalizeOperation::ReplaceMapping(..)
            | FinalizeOperation::RemoveMapping(..) => false,
        }
    }
}

/// The number of `InitializeMapping` operations in `ops`.
pub open spec fn count_initialize(ops: Seq<FinalizeOperation>) -> nat
    decreases ops.len(),
{
    if ops.len() == 0 {
        0
    } else {
        count_initialize(ops.drop_last()) + if ops.last() is InitializeMapping {
            1nat
        } else {
            0nat
        }
    }
}

/// The number of `UpdateKeyValue` operations in `ops`.
pub open spec fn count_update(ops: Seq<FinalizeOperation>) -> nat
    decreases ops.len(),
{
    if ops.len() == 0 {
        0
    } else {
        count_update(ops.drop_last()) + if ops.last() is UpdateKeyValue {
            1nat
        } else {
            0nat
        }
    }
}

/// Every operation in `ops` is one that a deployment may leave behind.
pub open spec fn all_deploy_ops(ops: Seq<FinalizeOperation>) -> bool {
    forall|i: int| 0 <= i < ops.len() ==> (#[trigger] ops[i]).spec_is_deploy_op()
}

/// Every operation in `ops` acts on one key-value leaf.
pub open spec fn all_key_value_ops(ops: Seq<FinalizeOperation>) -> bool {
    forall|i: int| 0 <= i < ops.len() ==> (#[trigger] ops[i]).spec_is_key_value()
}

/// Where every operation is an `InitializeMapping` or an `UpdateKeyValue`,
/// the two counts add up to the number of operations.
pub proof fn lemma_deploy_counts_add_up(ops: Seq<FinalizeOperation>)
    requires
        all_deploy_ops(ops),
    ensures
        count_initialize(ops) + count_update(ops) == ops.len(),
    decreases ops.len(),
{
    if ops.len() > 0 {
        let front = ops.drop_last();
        assert forall|i: int| 0 <= i < front.len() implies (#[trigger] front[i]).spec_is_deploy_op() by {
            assert(front[i] == ops[i]);
        }
        lemma_deploy_counts_add_up(front);
        assert(ops.last() == ops[ops.len() - 1]);
    }
}

} // verus!
