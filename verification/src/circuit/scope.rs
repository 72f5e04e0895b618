//! Scopes: the named regions of a circuit. A scope labels what is allocated
//! and enforced through it; the counters stay those of the whole system.
//!
//! A scope holds no constraint system. What it allocates and enforces goes
//! into the system that is handed to it, so that any number of scopes can
//! work on one system, one after the other.

use crate::circuit::constraint_system::{enforced, ConstraintSystem, ConstraintView};
use crate::circuit::linear_combination::LinearCombination;
use crate::circuit::mode::Mode;
use crate::circuit::variable::Variable;
use crate::field::Field;
use vstd::prelude::*;
use vstd::string::StringExecFns;

verus! {

/// The path of the scope `name` under the scope at `path`.
pub open spec fn child_path(path: Seq<char>, name: Seq<char>) -> Seq<char> {
    path + seq!['/'] + name
}

/// A scope of a circuit: its path, and the path of the scope it was entered
/// from.
#[derive(Debug)]
pub struct CircuitScope {
    name: String,
    previous: Option<String>,
}

/// A scope as plain values.
pub struct CircuitScopeView {
    /// The full path of the scope.
    pub name: Seq<char>,
    /// The path of the scope that this one was entered from, if any.
    pub previous: Option<Seq<char>>,
}

impl View for CircuitScope {
    type V = CircuitScopeView;

    closed spec fn view(&self) -> CircuitScopeView {
        CircuitScopeView {
            name: self.name@,
            previous: match self.previous {
                Some(previous) => Some(previous@),
                None => None,
            },
        }
    }
}

impl Clone for CircuitScope {
    /// The copy has the same path and the same parent.
    fn clone(&self) -> (r: CircuitScope)
        ensures
            r@ == self@,
    {
        CircuitScope {
            name: self.name.clone(),
            previous: match &self.previous {
                Some(previous) => Some(previous.clone()),
                None => None,
            },
        }
    }
}

impl CircuitScope {
    /// The scope at the path `name`, entered from `previous`.
    pub fn new(name: String, previous: Option<String>) -> (r: CircuitScope)
        ensures
            r@.name == name@,
            r@.previous == match previous {
                Some(previous) => Some(previous@),
                None => None,
            },
    {
        CircuitScope { name, previous }
    }

    /// Returns the scope `name` under this one.
    pub fn scope(&self, name: &str) -> (r: CircuitScope)
        ensures
            r@.name == child_path(self@.name, name@),
            r@.previous == Some(self@.name),
    {
        proof {
            reveal_strlit("/");
            assert("/"@ =~= seq!['/']);
        }
        let path = self.name.clone().concat("/").concat(name);
        CircuitScope { name: path, previous: Some(self.name.clone()) }
    }

    /// Returns the path of the scope.
    pub fn name(&self) -> (r: &String)
        ensures
            r@ == self@.name,
    {
        &self.name
    }

    /// Returns the path of the scope that this one was entered from.
    pub fn previous(&self) -> (r: Option<&String>)
        ensures
            match r {
                Some(previous) => self@.previous == Some(previous@),
                None => self@.previous is None,
            },
    {
        match &self.previous {
            Some(previous) => Some(previous),
            None => None,
        }
    }

    /// Allocates a constant in `system`.
    pub fn new_constant(&self, system: &mut ConstraintSystem, value: Field) -> (r: Variable)
        requires
            old(system).wf(),
        ensures
            final(system).wf(),
            r.spec_mode() == Mode::Constant,
            r.spec_index() == old(system).spec_modes().len(),
            r.spec_value() == value,
            final(system).spec_modes() == old(system).spec_modes().push(Mode::Constant),
            final(system).spec_assignment() == old(system).spec_assignment().push(value),
            final(system).spec_constraints() == old(system).spec_constraints(),
            final(system).spec_num_constants() == old(system).spec_num_constants() + 1,
            final(system).spec_num_public() == old(system).spec_num_public(),
            final(system).spec_num_private() == old(system).spec_num_private(),
    {
        system.new_constant(value)
    }

    /// Allocates a public variable in `system`.
    pub fn new_public(&self, system: &mut ConstraintSystem, value: Field) -> (r: Variable)
        requires
            old(system).wf(),
        ensures
            final(system).wf(),
            r.spec_mode() == Mode::Public,
            r.spec_index() == old(system).spec_modes().len(),
            r.spec_value() == value,
            final(system).spec_modes() == old(system).spec_modes().push(Mode::Public),
            final(system).spec_assignment() == old(system).spec_assignment().push(value),
            final(system).spec_constraints() == old(system).spec_constraints(),
            final(system).spec_num_constants() == old(system).spec_num_constants(),
            final(system).spec_num_public() == old(system).spec_num_public() + 1,
            final(system).spec_num_private() == old(system).spec_num_private(),
    {
        system.new_public(value)
    }

    /// Allocates a private variable in `system`.
    pub fn new_private(&self, system: &mut ConstraintSystem, value: Field) -> (r: Variable)
        requires
            old(system).wf(),
        ensures
            final(system).wf(),
            r.spec_mode() == Mode::Private,
            r.spec_index() == old(system).spec_modes().len(),
            r.spec_value() == value,
            final(system).spec_modes() == old(system).spec_modes().push(Mode::Private),
            final(system).spec_assignment() == old(system).spec_assignment().push(value),
            final(system).spec_constraints() == old(system).spec_constraints(),
            final(system).spec_num_constants() == old(system).spec_num_constants(),
            final(system).spec_num_public() == old(system).spec_num_public(),
            final(system).spec_num_private() == old(system).spec_num_private() + 1,
    {
        system.new_private(value)
    }

    /// Calls `constraint` for `a`, `b` and `c`, and records in `system`, under
    /// the path of this scope, that `a` times `b` is `c`.
    pub fn enforce<F: FnOnce() -> (LinearCombination, LinearCombination, LinearCombination)>(
        &self,
        system: &mut ConstraintSystem,
        constraint: F,
    )
        requires
            old(system).wf(),
            call_requires(constraint, ()),
        ensures
            final(system).wf(),
            exists|a: LinearCombination, b: LinearCombination, c: LinearCombination|
                #![trigger call_ensures(constraint, (), (a, b, c))]
                call_ensures(constraint, (), (a, b, c)) && enforced(
                    old(system)@,
                    final(system)@,
                    ConstraintView { scope: self@.name, a: a@, b: b@, c: c@ },
                ),
    {
        let (a, b, c) = constraint();
        let ghost added = ConstraintView { scope: self@.name, a: a@, b: b@, c: c@ };
        system.enforce(self.name.clone(), a, b, c);
        proof {
            assert(call_ensures(constraint, (), (a, b, c)) && enforced(old(system)@, system@, added));
        }
    }

    /// Returns `true` if every constraint of `system` holds.
    pub fn is_satisfied(&self, system: &ConstraintSystem) -> (r: bool)
        ensures
            r == system.spec_is_satisfied(),
    {
        system.is_satisfied()
    }

    /// Returns the number of constants in the whole of `system`.
    pub fn num_constants(&self, system: &ConstraintSystem) -> (r: usize)
        ensures
            r == system.spec_num_constants(),
    {
        system.num_constants()
    }

    /// Returns the number of public variables in the whole of `system`.
    pub fn num_public(&self, system: &ConstraintSystem) -> (r: usize)
        ensures
            r == system.spec_num_public(),
    {
        system.num_public()
    }

    /// Returns the number of private variables in the whole of `system`.
    pub fn num_private(&self, system: &ConstraintSystem) -> (r: usize)
        ensures
            r == system.spec_num_private(),
    {
        system.num_private()
    }

    /// Returns the number of constraints in the whole of `system`.
    pub fn num_constraints(&self, system: &ConstraintSystem) -> (r: usize)
        ensures
            r == system.spec_num_constraints(),
    {
        system.num_constraints()
    }
}

} // verus!
