//! The circuit environment: one constraint system and the scope that is
//! current in it. Entering a scope replaces the current scope by a child of
//! it; leaving restores the one before.
//!
//! The environment is a value that is handed to whoever builds the circuit.
//! Whether there is one for each thread, and where it is kept, is up to the
//! program that uses it.

use crate::circuit::constraint_system::{enforced, ConstraintSystem, ConstraintSystemView, ConstraintView};
use crate::circuit::linear_combination::LinearCombination;
use crate::circuit::mode::Mode;
use crate::circuit::scope::{child_path, CircuitScope, CircuitScopeView};
use crate::circuit::variable::Variable;
use crate::field::Field;
use vstd::prelude::*;
use vstd::string::StringExecFns;

verus! {

/// The path of the scope that a fresh environment starts in.
pub open spec fn root_path() -> Seq<char> {
    "ConstraintSystem::new"@
}

/// The scope that a fresh environment starts in.
pub open spec fn root_scope() -> CircuitScopeView {
    CircuitScopeView { name: root_path(), previous: None }
}

/// The scope `name` entered from `scope`.
pub open spec fn child_scope(scope: CircuitScopeView, name: Seq<char>) -> CircuitScopeView {
    CircuitScopeView { name: child_path(scope.name, name), previous: Some(scope.name) }
}

/// A circuit environment.
#[derive(Debug)]
pub struct Circuit {
    system: ConstraintSystem,
    scope: CircuitScope,
}

impl Circuit {
    /// The constraint system of the environment.
    pub closed spec fn spec_system(&self) -> ConstraintSystem {
        self.system
    }

    /// The scope that is current.
    pub closed spec fn spec_scope(&self) -> CircuitScopeView {
        self.scope@
    }

    /// The environment is consistent: its constraint system is.
    pub open spec fn wf(&self) -> bool {
        self.spec_system().wf()
    }

    /// The counters, as (`constants`, `public`, `private`, `constraints`).
    pub open spec fn spec_counters(&self) -> (nat, nat, nat, nat) {
        (
            self.spec_system().spec_num_constants() as nat,
            self.spec_system().spec_num_public() as nat,
            self.spec_system().spec_num_private() as nat,
            self.spec_system().spec_num_constraints(),
        )
    }

    /// The environment is as it is made: the root scope, the public variable
    /// one, and nothing else.
    pub open spec fn is_fresh(&self) -> bool {
        &&& self.wf()
        &&& self.spec_scope() == root_scope()
        &&& self.spec_counters() == (0nat, 1nat, 0nat, 0nat)
        &&& self.spec_system().spec_modes() == seq![Mode::Public]
        &&& self.spec_system().spec_constraints() == Seq::<ConstraintView>::empty()
    }

    /// `entered` is what the environment is once the scope `name` is entered: the
    /// same constraint system, and the child scope current.
    pub open spec fn enters(&self, name: Seq<char>, entered: Circuit) -> bool {
        &&& entered.spec_system()@ == self.spec_system()@
        &&& entered.spec_scope() == child_scope(self.spec_scope(), name)
    }

    /// A fresh environment, in the scope `ConstraintSystem::new`.
    pub fn new() -> (r: Circuit)
        ensures
            r.is_fresh(),
    {
        let scope = CircuitScope::new(String::from_str("ConstraintSystem::new"), None);
        Circuit { system: ConstraintSystem::new(), scope }
    }

    /// Returns the scope that is current.
    pub fn cs(&self) -> (r: CircuitScope)
        ensures
            r@ == self.spec_scope(),
    {
        self.scope.clone()
    }

    /// Replaces the environment by a fresh one.
    pub fn reset_circuit(&mut self)
        ensures
            final(self).is_fresh(),
            final(self).spec_counters() == (0nat, 1nat, 0nat, 0nat),
    {
        self.system = ConstraintSystem::new();
        self.scope = CircuitScope::new(String::from_str("ConstraintSystem::new"), None);
    }

    /// Returns the constraint system of the environment.
    pub fn system(&self) -> (r: &ConstraintSystem)
        ensures
            *r == self.spec_system(),
    {
        &self.system
    }

    /// Allocates a variable of the given mode with the given value, through
    /// the current scope.
    pub fn new_variable(&mut self, mode: Mode, value: Field) -> (r: Variable)
        requires
            old(self).wf(),
        ensures
            final(self).wf(),
            final(self).spec_scope() == old(self).spec_scope(),
            r.spec_mode() == mode,
            r.spec_index() == old(self).spec_system().spec_modes().len(),
            r.spec_value() == value,
            final(self).spec_system().spec_modes() == old(self).spec_system().spec_modes().push(mode),
            final(self).spec_system().spec_assignment() == old(self).spec_system().spec_assignment().push(value),
            final(self).spec_system().spec_constraints() == old(self).spec_system().spec_constraints(),
            final(self).spec_counters() == (
                old(self).spec_counters().0 + if mode is Constant {
                    1nat
                } else {
                    0nat
                },
                old(self).spec_counters().1 + if mode is Public {
                    1nat
                } else {
                    0nat
                },
                old(self).spec_counters().2 + if mode is Private {
                    1nat
                } else {
                    0nat
                },
                old(self).spec_counters().3,
            ),
    {
        match mode {
            Mode::Constant => self.scope.new_constant(&mut self.system, value),
            Mode::Public => self.scope.new_public(&mut self.system, value),
            Mode::Private => self.scope.new_private(&mut self.system, value),
        }
    }

    /// Returns the linear combination that is zero.
    pub fn zero() -> (r: LinearCombination)
        ensures
            r.wf(),
            r.constant_value() == 0,
            r.spec_terms() == Seq::<(usize, Field)>::empty(),
    {
        LinearCombination::zero()
    }

    /// Returns the linear combination that is one.
    pub fn one() -> (r: LinearCombination)
        ensures
            r.wf(),
            r.constant_value() == 1,
            r.spec_terms() == Seq::<(usize, Field)>::empty(),
    {
        LinearCombination::one()
    }

    /// Returns `true` if every constraint holds under the assignment.
    pub fn is_satisfied(&self) -> (r: bool)
        ensures
            r == self.spec_system().spec_is_satisfied(),
    {
        self.scope.is_satisfied(&self.system)
    }

    /// Enters the scope `name` under the current one, and returns it. The
    /// scope stays current until the caller restores another.
    pub fn scope(&mut self, name: &str) -> (r: CircuitScope)
        ensures
            old(self).enters(name@, *final(self)),
            final(self).spec_system() == old(self).spec_system(),
            r@ == final(self).spec_scope(),
    {
        let scope = self.scope.scope(name);
        self.scope = scope.clone();
        scope
    }

    /// Makes `scope` current: what leaving a scope does with the scope that
    /// was current before. The constraint system stays as it is.
    pub fn restore(&mut self, scope: CircuitScope)
        ensures
            final(self).spec_scope() == scope@,
            final(self).spec_system() == old(self).spec_system(),
    {
        self.scope = scope;
    }

    /// Enters the scope `name` under the current one, runs `logic` in it,
    /// and makes the scope that was current before current again.
    pub fn scoped<F: FnOnce(&mut Circuit)>(&mut self, name: &str, logic: F)
        requires
            forall|entered: &mut Circuit|
                old(self).enters(name@, *entered) ==> #[trigger] call_requires(logic, (entered,)),
        ensures
            final(self).spec_scope() == old(self).spec_scope(),
            exists|entered: &mut Circuit|
                old(self).enters(name@, *entered) && #[trigger] call_ensures(logic, (entered,), ())
                    && final(self).spec_system() == final(entered).spec_system(),
    {
        // Fetch the current environment.
        let current = self.cs();
        // Set the entire environment to the new scope, and run the logic.
        let _ = self.scope(name);
        logic(self);
        // Return the entire environment to the previous scope.
        self.restore(current);
    }

    /// Calls `constraint` for `a`, `b` and `c`, and records under the path of
    /// the current scope that `a` times `b` is `c`.
    pub fn enforce<F: FnOnce() -> (LinearCombination, LinearCombination, LinearCombination)>(&mut self, constraint: F)
        requires
            old(self).wf(),
            call_requires(constraint, ()),
        ensures
            final(self).wf(),
            final(self).spec_scope() == old(self).spec_scope(),
            exists|a: LinearCombination, b: LinearCombination, c: LinearCombination|
                #![trigger call_ensures(constraint, (), (a, b, c))]
                call_ensures(constraint, (), (a, b, c)) && enforced(
                    old(self).spec_system()@,
                    final(self).spec_system()@,
                    ConstraintView { scope: old(self).spec_scope().name, a: a@, b: b@, c: c@ },
                ),
    {
        self.scope.enforce(&mut self.system, constraint)
    }

    /// Returns the number of constants in the whole circuit.
    pub fn num_constants(&self) -> (r: usize)
        ensures
            r == self.spec_counters().0,
    {
        self.scope.num_constants(&self.system)
    }

    /// Returns the number of public variables in the whole circuit.
    pub fn num_public(&self) -> (r: usize)
        ensures
            r == self.spec_counters().1,
    {
        self.scope.num_public(&self.system)
    }

    /// Returns the number of private variables in the whole circuit.
    pub fn num_private(&self) -> (r: usize)
        ensures
            r == self.spec_counters().2,
    {
        self.scope.num_private(&self.system)
    }

    /// Returns the number of constraints in the whole circuit.
    pub fn num_constraints(&self) -> (r: usize)
        ensures
            r == self.spec_counters().3,
    {
        self.scope.num_constraints(&self.system)
    }
}

} // verus!
