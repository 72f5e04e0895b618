//! The constraint system: what was allocated, what was assigned, and what was
//! enforced, in the order in which it happened.

use crate::circuit::linear_combination::{eval_of, LinearCombination};
use crate::circuit::mode::Mode;
use crate::circuit::variable::Variable;
use crate::field::{modulus, Field};
use vstd::prelude::*;

verus! {

/// The number of variables of the given mode among `modes`.
pub open spec fn count_mode(modes: Seq<Mode>, mode: Mode) -> nat
    decreases modes.len(),
{
    if modes.len() == 0 {
        0
    } else {
        count_mode(modes.drop_last(), mode) + if modes.last() == mode {
            1nat
        } else {
            0nat
        }
    }
}

/// No more variables have one mode than there are variables.
pub proof fn lemma_count_mode_bounded(modes: Seq<Mode>, mode: Mode)
    ensures
        count_mode(modes, mode) <= modes.len(),
    decreases modes.len(),
{
    if modes.len() > 0 {
        lemma_count_mode_bounded(modes.drop_last(), mode);
    }
}

/// One more variable raises the count of its mode by one and no other.
pub proof fn lemma_count_mode_push(modes: Seq<Mode>, added: Mode, mode: Mode)
    ensures
        count_mode(modes.push(added), mode) == count_mode(modes, mode) + if added == mode {
            1nat
        } else {
            0nat
        },
{
    assert(modes.push(added).drop_last() =~= modes);
}

/// An enforced constraint: under the label of the scope that enforced it,
/// the claim that `a` times `b` is `c`.
#[derive(Debug)]
pub struct Constraint {
    scope: String,
    a: LinearCombination,
    b: LinearCombination,
    c: LinearCombination,
}

/// A constraint as plain values: the label, and `a`, `b` and `c`, each by its
/// constant and its terms.
pub struct ConstraintView {
    pub scope: Seq<char>,
    pub a: (Field, Seq<(usize, Field)>),
    pub b: (Field, Seq<(usize, Field)>),
    pub c: (Field, Seq<(usize, Field)>),
}

impl View for Constraint {
    type V = ConstraintView;

    closed spec fn view(&self) -> ConstraintView {
        ConstraintView { scope: self.scope@, a: self.a@, b: self.b@, c: self.c@ }
    }
}

/// The constraint holds under `assignment`: the value of `a` times the value
/// of `b` is the value of `c`, in the field.
pub open spec fn constraint_holds(constraint: ConstraintView, assignment: Seq<Field>) -> bool {
    (eval_of(constraint.a, assignment) * eval_of(constraint.b, assignment)) % modulus() == eval_of(
        constraint.c,
        assignment,
    )
}

/// Every constraint holds under `assignment`.
pub open spec fn all_hold(constraints: Seq<ConstraintView>, assignment: Seq<Field>) -> bool {
    forall|k: int| 0 <= k < constraints.len() ==> constraint_holds(#[trigger] constraints[k], assignment)
}

impl Constraint {
    /// Returns the label of the scope that enforced the constraint.
    pub fn scope(&self) -> (r: &String)
        ensures
            r@ == self@.scope,
    {
        &self.scope
    }

    /// Returns `a`, `b` and `c`.
    pub fn to_terms(&self) -> (r: (&LinearCombination, &LinearCombination, &LinearCombination))
        ensures
            r.0@ == self@.a,
            r.1@ == self@.b,
            r.2@ == self@.c,
    {
        (&self.a, &self.b, &self.c)
    }

    /// Returns `true` if the constraint holds under `assignment`.
    pub fn is_satisfied(&self, assignment: &Vec<Field>) -> (r: bool)
        ensures
            r == constraint_holds(self@, assignment@),
    {
        let a = self.a.eval(assignment);
        let b = self.b.eval(assignment);
        let c = self.c.eval(assignment);
        let product = a.mul(&b);
        proof {
            Field::lemma_view_injective(product, c);
        }
        product == c
    }
}

/// A constraint system.
#[derive(Debug)]
pub struct ConstraintSystem {
    modes: Vec<Mode>,
    assignment: Vec<Field>,
    num_constants: usize,
    num_public: usize,
    num_private: usize,
    constraints: Vec<Constraint>,
}

/// A constraint system as plain values.
pub struct ConstraintSystemView {
    /// The mode of each variable, in the order of allocation.
    pub modes: Seq<Mode>,
    /// The value of each variable, in the order of allocation.
    pub assignment: Seq<Field>,
    /// The constraints, in the order in which they were enforced.
    pub constraints: Seq<ConstraintView>,
    /// The counter of constants.
    pub num_constants: usize,
    /// The counter of public variables.
    pub num_public: usize,
    /// The counter of private variables.
    pub num_private: usize,
}

impl View for ConstraintSystem {
    type V = ConstraintSystemView;

    closed spec fn view(&self) -> ConstraintSystemView {
        ConstraintSystemView {
            modes: self.modes@,
            assignment: self.assignment@,
            constraints: Seq::new(self.constraints@.len(), |k: int| self.constraints@[k]@),
            num_constants: self.num_constants,
            num_public: self.num_public,
            num_private: self.num_private,
        }
    }
}

impl ConstraintSystem {
    /// The mode of each variable, in the order of allocation.
    pub open spec fn spec_modes(&self) -> Seq<Mode> {
        self@.modes
    }

    /// The value of each variable, in the order of allocation.
    pub open spec fn spec_assignment(&self) -> Seq<Field> {
        self@.assignment
    }

    /// The constraints, in the order in which they were enforced.
    pub open spec fn spec_constraints(&self) -> Seq<ConstraintView> {
        self@.constraints
    }

    /// The number of constants.
    pub open spec fn spec_num_constants(&self) -> usize {
        self@.num_constants
    }

    /// The number of public variables.
    pub open spec fn spec_num_public(&self) -> usize {
        self@.num_public
    }

    /// The number of private variables.
    pub open spec fn spec_num_private(&self) -> usize {
        self@.num_private
    }

    /// The number of constraints.
    pub open spec fn spec_num_constraints(&self) -> nat {
        self.spec_constraints().len()
    }

    /// The system is consistent: every variable has a mode and a value, the
    /// first of them is the public variable one, and each counter holds the
    /// number of variables of its mode.
    pub open spec fn wf(&self) -> bool {
        &&& self.spec_modes().len() == self.spec_assignment().len()
        &&& self.spec_modes().len() >= 1
        &&& self.spec_modes()[0] == Mode::Public
        &&& self.spec_assignment()[0]@ == 1
        &&& self.spec_num_constants() == count_mode(self.spec_modes(), Mode::Constant)
        &&& self.spec_num_public() == count_mode(self.spec_modes(), Mode::Public)
        &&& self.spec_num_private() == count_mode(self.spec_modes(), Mode::Private)
    }

    /// Every constraint holds under the assignment.
    pub open spec fn spec_is_satisfied(&self) -> bool {
        all_hold(self.spec_constraints(), self.spec_assignment())
    }

    /// A system with the public variable one and nothing else.
    pub fn new() -> (r: ConstraintSystem)
        ensures
            r.wf(),
            r.spec_modes() == seq![Mode::Public],
            r.spec_assignment().len() == 1,
            r.spec_constraints() == Seq::<ConstraintView>::empty(),
            r.spec_num_constants() == 0,
            r.spec_num_public() == 1,
            r.spec_num_private() == 0,
            r.spec_num_constraints() == 0,
    {
        let mut modes: Vec<Mode> = Vec::new();
        modes.push(Mode::Public);
        let mut assignment: Vec<Field> = Vec::new();
        assignment.push(Field::one());
        let r = ConstraintSystem {
            modes,
            assignment,
            num_constants: 0,
            num_public: 1,
            num_private: 0,
            constraints: Vec::new(),
        };
        proof {
            assert(r.spec_modes() =~= Seq::<Mode>::empty().push(Mode::Public));
            lemma_count_mode_push(Seq::<Mode>::empty(), Mode::Public, Mode::Constant);
            lemma_count_mode_push(Seq::<Mode>::empty(), Mode::Public, Mode::Public);
            lemma_count_mode_push(Seq::<Mode>::empty(), Mode::Public, Mode::Private);
            assert(r.spec_constraints() =~= Seq::<ConstraintView>::empty());
        }
        r
    }

    /// Allocates a variable of the given mode with the given value.
    pub fn new_variable(&mut self, mode: Mode, value: Field) -> (r: Variable)
        requires
            old(self).wf(),
        ensures
            final(self).wf(),
            r.spec_mode() == mode,
            r.spec_index() == old(self).spec_modes().len(),
            r.spec_value() == value,
            final(self).spec_modes() == old(self).spec_modes().push(mode),
            final(self).spec_assignment() == old(self).spec_assignment().push(value),
            final(self).spec_constraints() == old(self).spec_constraints(),
            final(self).spec_num_constants() == old(self).spec_num_constants() + if mode is Constant {
                1int
            } else {
                0int
            },
            final(self).spec_num_public() == old(self).spec_num_public() + if mode is Public {
                1int
            } else {
                0int
            },
            final(self).spec_num_private() == old(self).spec_num_private() + if mode is Private {
                1int
            } else {
                0int
            },
    {
        let index = self.modes.len();
        proof {
            lemma_count_mode_push(self.modes@, mode, Mode::Constant);
            lemma_count_mode_push(self.modes@, mode, Mode::Public);
            lemma_count_mode_push(self.modes@, mode, Mode::Private);
        }
        self.modes.push(mode);
        self.assignment.push(value);
        let allocated = self.modes.len();
        proof {
            lemma_count_mode_bounded(self.modes@, mode);
            assert(count_mode(self.modes@, mode) <= allocated);
        }
        match mode {
            Mode::Constant => {
                self.num_constants = self.num_constants + 1;
            },
            Mode::Public => {
                self.num_public = self.num_public + 1;
            },
            Mode::Private => {
                self.num_private = self.num_private + 1;
            },
        }
        Variable::new(mode, index, value)
    }

    /// Allocates a constant with the given value.
    pub fn new_constant(&mut self, value: Field) -> (r: Variable)
        requires
            old(self).wf(),
        ensures
            final(self).wf(),
            r.spec_mode() == Mode::Constant,
            r.spec_index() == old(self).spec_modes().len(),
            r.spec_value() == value,
            final(self).spec_modes() == old(self).spec_modes().push(Mode::Constant),
            final(self).spec_assignment() == old(self).spec_assignment().push(value),
            final(self).spec_constraints() == old(self).spec_constraints(),
            final(self).spec_num_constants() == old(self).spec_num_constants() + 1,
            final(self).spec_num_public() == old(self).spec_num_public(),
            final(self).spec_num_private() == old(self).spec_num_private(),
    {
        self.new_variable(Mode::Constant, value)
    }

    /// Allocates a public variable with the given value.
    pub fn new_public(&mut self, value: Field) -> (r: Variable)
        requires
            old(self).wf(),
        ensures
            final(self).wf(),
            r.spec_mode() == Mode::Public,
            r.spec_index() == old(self).spec_modes().len(),
            r.spec_value() == value,
            final(self).spec_modes() == old(self).spec_modes().push(Mode::Public),
            final(self).spec_assignment() == old(self).spec_assignment().push(value),
            final(self).spec_constraints() == old(self).spec_constraints(),
            final(self).spec_num_constants() == old(self).spec_num_constants(),
            final(self).spec_num_public() == old(self).spec_num_public() + 1,
            final(self).spec_num_private() == old(self).spec_num_private(),
    {
        self.new_variable(Mode::Public, value)
    }

    /// Allocates a private variable with the given value.
    pub fn new_private(&mut self, value: Field) -> (r: Variable)
        requires
            old(self).wf(),
        ensures
            final(self).wf(),
            r.spec_mode() == Mode::Private,
            r.spec_index() == old(self).spec_modes().len(),
            r.spec_value() == value,
            final(self).spec_modes() == old(self).spec_modes().push(Mode::Private),
            final(self).spec_assignment() == old(self).spec_assignment().push(value),
            final(self).spec_constraints() == old(self).spec_constraints(),
            final(self).spec_num_constants() == old(self).spec_num_constants(),
            final(self).spec_num_public() == old(self).spec_num_public(),
            final(self).spec_num_private() == old(self).spec_num_private() + 1,
    {
        self.new_variable(Mode::Private, value)
    }

    /// Records the constraint that `a` times `b` is `c`, under the label
    /// `scope`. After it the system is satisfied exactly if it was satisfied
    /// before and the new constraint holds.
    pub fn enforce(&mut self, scope: String, a: LinearCombination, b: LinearCombination, c: LinearCombination)
        requires
            old(self).wf(),
        ensures
            final(self).wf(),
            final(self).spec_constraints() == old(self).spec_constraints().push(
                ConstraintView { scope: scope@, a: a@, b: b@, c: c@ },
            ),
            final(self).spec_modes() == old(self).spec_modes(),
            final(self).spec_assignment() == old(self).spec_assignment(),
            final(self).spec_num_constants() == old(self).spec_num_constants(),
            final(self).spec_num_public() == old(self).spec_num_public(),
            final(self).spec_num_private() == old(self).spec_num_private(),
            final(self).spec_num_constraints() == old(self).spec_num_constraints() + 1,
            final(self).spec_is_satisfied() <==> old(self).spec_is_satisfied() && constraint_holds(
                ConstraintView { scope: scope@, a: a@, b: b@, c: c@ },
                old(self).spec_assignment(),
            ),
            enforced(old(self)@, final(self)@, ConstraintView { scope: scope@, a: a@, b: b@, c: c@ }),
    {
        let ghost before = self.spec_constraints();
        let ghost added = ConstraintView { scope: scope@, a: a@, b: b@, c: c@ };
        self.constraints.push(Constraint { scope, a, b, c });
        proof {
            let after = self.spec_constraints();
            assert(after =~= before.push(added));
            lemma_all_hold_push(before, added, self.spec_assignment());
        }
    }

    /// Returns `true` if every constraint holds under the assignment.
    pub fn is_satisfied(&self) -> (r: bool)
        ensures
            r == self.spec_is_satisfied(),
    {
        let mut k: usize = 0;
        while k < self.constraints.len()
            invariant
                k <= self.constraints@.len(),
                forall|l: int| 0 <= l < k ==> constraint_holds(#[trigger] self.spec_constraints()[l], self.assignment@),
            decreases self.constraints.len() - k,
        {
            if !self.constraints[k].is_satisfied(&self.assignment) {
                assert(!constraint_holds(self.spec_constraints()[k as int], self.assignment@));
                return false;
            }
            k = k + 1;
        }
        true
    }

    /// Returns the number of constants.
    #[verifier::when_used_as_spec(spec_num_constants)]
    pub fn num_constants(&self) -> (r: usize)
        ensures
            r == self.spec_num_constants(),
    {
        self.num_constants
    }

    /// Returns the number of public variables.
    #[verifier::when_used_as_spec(spec_num_public)]
    pub fn num_public(&self) -> (r: usize)
        ensures
            r == self.spec_num_public(),
    {
        self.num_public
    }

    /// Returns the number of private variables.
    #[verifier::when_used_as_spec(spec_num_private)]
    pub fn num_private(&self) -> (r: usize)
        ensures
            r == self.spec_num_private(),
    {
        self.num_private
    }

    /// Returns the number of constraints.
    pub fn num_constraints(&self) -> (r: usize)
        ensures
            r == self.spec_num_constraints(),
    {
        self.constraints.len()
    }

    /// Returns the values of the variables, in the order of allocation.
    pub fn assignment(&self) -> (r: &Vec<Field>)
        ensures
            r@ == self.spec_assignment(),
    {
        &self.assignment
    }

    /// Returns the constraints, in the order in which they were enforced.
    pub fn constraints(&self) -> (r: &Vec<Constraint>)
        ensures
            r@.len() == self.spec_constraints().len(),
            forall|k: int| 0 <= k < r@.len() ==> (#[trigger] r@[k])@ == self.spec_constraints()[k],
    {
        &self.constraints
    }
}

/// `after` is `before` with the one constraint `added` at the end of its
/// constraints, and nothing else changed. The system is then satisfied
/// exactly if it was satisfied before and the new constraint holds.
pub open spec fn enforced(before: ConstraintSystemView, after: ConstraintSystemView, added: ConstraintView) -> bool {
    after == (ConstraintSystemView { constraints: before.constraints.push(added), ..before })
}

/// Enforcing a constraint leaves the system satisfied exactly if it was
/// satisfied before and the new constraint holds under the assignment.
pub proof fn law_enforce_satisfaction(before: ConstraintSystem, after: ConstraintSystem, added: ConstraintView)
    requires
        enforced(before@, after@, added),
    ensures
        after.spec_is_satisfied() <==> before.spec_is_satisfied() && constraint_holds(
            added,
            before.spec_assignment(),
        ),
        after.spec_num_constraints() == before.spec_num_constraints() + 1,
        after.wf() == before.wf(),
{
    lemma_all_hold_push(before.spec_constraints(), added, before.spec_assignment());
}

/// With one more constraint, all hold exactly if all held before and the new
/// one holds.
pub proof fn lemma_all_hold_push(constraints: Seq<ConstraintView>, added: ConstraintView, assignment: Seq<Field>)
    ensures
        all_hold(constraints.push(added), assignment) <==> all_hold(constraints, assignment) && constraint_holds(
            added,
            assignment,
        ),
{
    let after = constraints.push(added);
    if all_hold(after, assignment) {
        assert forall|k: int| 0 <= k < constraints.len() implies constraint_holds(
            #[trigger] constraints[k],
            assignment,
        ) by {
            assert(after[k] == constraints[k]);
        }
        assert(after[constraints.len() as int] == added);
    }
    if all_hold(constraints, assignment) && constraint_holds(added, assignment) {
        assert forall|k: int| 0 <= k < after.len() implies constraint_holds(#[trigger] after[k], assignment) by {
            if k < constraints.len() {
                assert(after[k] == constraints[k]);
            }
        }
    }
}

} // verus!
