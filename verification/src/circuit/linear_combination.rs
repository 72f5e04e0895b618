//! Linear combinations: a constant plus a sparse sum of variables, each with
//! a coefficient that is not zero.

use crate::circuit::variable::Variable;
use crate::field::{modulus, Field};
use vstd::arithmetic::div_mod::{
    lemma_add_mod_noop, lemma_add_mod_noop_right, lemma_mod_multiples_vanish, lemma_mul_mod_noop_left, lemma_small_mod,
    lemma_sub_mod_noop_right,
};
use vstd::prelude::*;
use vstd::std_specs::convert::FromSpecImpl;

verus! {

/// The coefficient of the variable `index` in `terms`, each term a variable
/// with its coefficient: zero where the variable does not occur.
pub open spec fn coefficient_in(terms: Seq<(usize, Field)>, index: usize) -> nat
    decreases terms.len(),
{
    if terms.len() == 0 {
        0
    } else if terms.last().0 == index {
        terms.last().1@
    } else {
        coefficient_in(terms.drop_last(), index)
    }
}

/// The terms are held in canonical form: ordered by variable, each variable
/// once, and no coefficient zero.
pub open spec fn canonical_terms(terms: Seq<(usize, Field)>) -> bool {
    &&& forall|i: int, j: int| 0 <= i < j < terms.len() ==> terms[i].0 < terms[j].0
    &&& forall|i: int| 0 <= i < terms.len() ==> (#[trigger] terms[i]).1.canonical() && terms[i].1@ != 0
}

/// The value that `assignment` gives to the variable `index`: zero where it
/// assigns none.
pub open spec fn value_at(assignment: Seq<Field>, index: usize) -> nat {
    if index < assignment.len() {
        assignment[index as int]@
    } else {
        0
    }
}

/// The sum of the terms under `assignment`, in the field.
pub open spec fn eval_terms(terms: Seq<(usize, Field)>, assignment: Seq<Field>) -> nat
    decreases terms.len(),
{
    if terms.len() == 0 {
        0
    } else {
        (eval_terms(terms.drop_last(), assignment) + terms.last().1@ * value_at(assignment, terms.last().0))
            % modulus()
    }
}

/// The value under `assignment` of the combination with the given constant
/// and terms, in the field.
pub open spec fn eval_of(combination: (Field, Seq<(usize, Field)>), assignment: Seq<Field>) -> nat {
    (combination.0@ + eval_terms(combination.1, assignment)) % modulus()
}

/// A term added at the end adds its coefficient times the value of its
/// variable.
pub proof fn lemma_eval_push(terms: Seq<(usize, Field)>, term: (usize, Field), assignment: Seq<Field>)
    ensures
        eval_terms(terms.push(term), assignment) == (eval_terms(terms, assignment) + term.1@ * value_at(
            assignment,
            term.0,
        )) % modulus(),
{
    assert(terms.push(term).drop_last() =~= terms);
}

/// Reducing the first summand first does not change the reduced sum.
proof fn lemma_mod_add_left(x: int, y: int, m: int)
    requires
        0 < m,
    ensures
        ((x % m) + y) % m == (x + y) % m,
{
    lemma_add_mod_noop_right(y, x, m);
}

/// Where `q` is `c * s` reduced, `q * v` and `c * v * s` reduce to the same.
proof fn lemma_mod_product(q: int, c: int, s: int, v: int, x: int, m: int)
    requires
        0 < m,
        q == (c * s) % m,
    ensures
        (x + q * v) % m == (x + c * v * s) % m,
{
    lemma_mul_mod_noop_left(c * s, v, m);
    assert((q * v) % m == ((c * s) * v) % m);
    assert((c * s) * v == c * v * s) by (nonlinear_arith);
    lemma_add_mod_noop_right(x, q * v, m);
    lemma_add_mod_noop_right(x, c * v * s, m);
}

/// Where `q` is `ca + cb` reduced, `q * v` and `ca * v + cb * v` reduce to
/// the same.
proof fn lemma_mod_sum_product(q: int, ca: int, cb: int, v: int, x: int, m: int)
    requires
        0 < m,
        q == (ca + cb) % m,
    ensures
        (x + q * v) % m == (x + ca * v + cb * v) % m,
{
    lemma_mul_mod_noop_left(ca + cb, v, m);
    assert((q * v) % m == ((ca + cb) * v) % m);
    assert((ca + cb) * v == ca * v + cb * v) by (nonlinear_arith);
    lemma_add_mod_noop_right(x, q * v, m);
    lemma_add_mod_noop_right(x, (ca + cb) * v, m);
}

/// A term added at the end sets the coefficient of its variable and leaves
/// the others.
pub proof fn lemma_coefficient_push(terms: Seq<(usize, Field)>, term: (usize, Field), index: usize)
    ensures
        coefficient_in(terms.push(term), index) == if term.0 == index {
            term.1@
        } else {
            coefficient_in(terms, index)
        },
{
    assert(terms.push(term).drop_last() =~= terms);
}

/// A variable that occurs in no term has the coefficient zero.
pub proof fn lemma_coefficient_absent(terms: Seq<(usize, Field)>, index: usize)
    requires
        forall|k: int| 0 <= k < terms.len() ==> (#[trigger] terms[k]).0 != index,
    ensures
        coefficient_in(terms, index) == 0,
    decreases terms.len(),
{
    if terms.len() > 0 {
        assert(terms.last() == terms[terms.len() - 1]);
        let front = terms.drop_last();
        assert forall|k: int| 0 <= k < front.len() implies (#[trigger] front[k]).0 != index by {
            assert(front[k] == terms[k]);
        }
        lemma_coefficient_absent(front, index);
    }
}

/// In canonical terms, the coefficient of a variable that occurs is the one
/// that stands with it.
pub proof fn lemma_coefficient_present(terms: Seq<(usize, Field)>, k: int)
    requires
        canonical_terms(terms),
        0 <= k < terms.len(),
    ensures
        coefficient_in(terms, terms[k].0) == terms[k].1@,
        coefficient_in(terms, terms[k].0) != 0,
    decreases terms.len(),
{
    if k < terms.len() - 1 {
        let front = terms.drop_last();
        assert(terms.last() == terms[terms.len() - 1]);
        assert(front[k] == terms[k]);
        assert(canonical_terms(front)) by {
            assert forall|i: int| 0 <= i < front.len() implies (#[trigger] front[i]).1.canonical() && front[i].1@
                != 0 by {
                assert(front[i] == terms[i]);
            }
        }
        lemma_coefficient_present(front, k);
    }
}

/// A variable with a coefficient that is not zero occurs in the terms.
pub proof fn lemma_coefficient_occurs(terms: Seq<(usize, Field)>, index: usize)
    requires
        coefficient_in(terms, index) != 0,
    ensures
        exists|k: int| 0 <= k < terms.len() && (#[trigger] terms[k]).0 == index,
{
    if forall|k: int| 0 <= k < terms.len() ==> (#[trigger] terms[k]).0 != index {
        lemma_coefficient_absent(terms, index);
    }
}

/// The canonical form is unique: canonical terms that give every variable
/// the same coefficient are the same terms.
pub proof fn lemma_canonical_terms_unique(a: Seq<(usize, Field)>, b: Seq<(usize, Field)>)
    requires
        canonical_terms(a),
        canonical_terms(b),
        forall|index: usize| coefficient_in(a, index) == coefficient_in(b, index),
    ensures
        a == b,
    decreases a.len() + b.len(),
{
    if a.len() == 0 {
        if b.len() > 0 {
            lemma_coefficient_present(b, 0);
            assert(coefficient_in(a, b[0].0) == 0);
        }
        assert(a =~= b);
    } else if b.len() == 0 {
        lemma_coefficient_present(a, 0);
        assert(coefficient_in(b, a[0].0) == 0);
    } else {
        let la = a.len() - 1;
        let lb = b.len() - 1;
        lemma_coefficient_present(a, la);
        lemma_coefficient_present(b, lb);
        lemma_coefficient_occurs(b, a[la].0);
        lemma_coefficient_occurs(a, b[lb].0);
        let kb = choose|k: int| 0 <= k < b.len() && (#[trigger] b[k]).0 == a[la].0;
        let ka = choose|k: int| 0 <= k < a.len() && (#[trigger] a[k]).0 == b[lb].0;
        assert(a[la].0 == b[lb].0) by {
            if kb < lb {
                assert(b[kb].0 < b[lb].0);
            }
            if ka < la {
                assert(a[ka].0 < a[la].0);
            }
        }
        Field::lemma_view_injective(a[la].1, b[lb].1);
        assert(a[la] == b[lb]);
        let fa = a.drop_last();
        let fb = b.drop_last();
        assert(canonical_terms(fa)) by {
            assert forall|i: int| 0 <= i < fa.len() implies (#[trigger] fa[i]).1.canonical() && fa[i].1@ != 0 by {
                assert(fa[i] == a[i]);
            }
        }
        assert(canonical_terms(fb)) by {
            assert forall|i: int| 0 <= i < fb.len() implies (#[trigger] fb[i]).1.canonical() && fb[i].1@ != 0 by {
                assert(fb[i] == b[i]);
            }
        }
        assert forall|index: usize| coefficient_in(fa, index) == coefficient_in(fb, index) by {
            if index == a[la].0 {
                assert forall|k: int| 0 <= k < fa.len() implies (#[trigger] fa[k]).0 != index by {
                    assert(fa[k] == a[k]);
                }
                assert forall|k: int| 0 <= k < fb.len() implies (#[trigger] fb[k]).0 != index by {
                    assert(fb[k] == b[k]);
                }
                lemma_coefficient_absent(fa, index);
                lemma_coefficient_absent(fb, index);
            } else {
                assert(a.last() == a[la] && b.last() == b[lb]);
                assert(coefficient_in(a, index) == coefficient_in(fa, index));
                assert(coefficient_in(b, index) == coefficient_in(fb, index));
            }
        }
        lemma_canonical_terms_unique(fa, fb);
        assert(a =~= fa.push(a[la]));
        assert(b =~= fb.push(b[lb]));
    }
}

/// A linear combination of the variables of a constraint system.
#[derive(Debug)]
pub struct LinearCombination {
    constant: Field,
    terms: Vec<(usize, Field)>,
}

impl View for LinearCombination {
    type V = (Field, Seq<(usize, Field)>);

    /// The constant and the terms.
    open spec fn view(&self) -> (Field, Seq<(usize, Field)>) {
        (self.spec_constant(), self.spec_terms())
    }
}

impl LinearCombination {
    /// Every linear combination in executable code is in canonical form.
    #[verifier::type_invariant]
    pub open spec fn wf(&self) -> bool {
        &&& self.spec_constant().canonical()
        &&& canonical_terms(self.spec_terms())
    }

    /// The constant of the combination.
    pub closed spec fn spec_constant(&self) -> Field {
        self.constant
    }

    /// The terms of the combination: each a variable with its coefficient.
    pub closed spec fn spec_terms(&self) -> Seq<(usize, Field)> {
        self.terms@
    }

    /// The constant, as a number.
    pub open spec fn constant_value(&self) -> nat {
        self.spec_constant()@
    }

    /// The coefficient of the variable `index`, as a number: zero where the
    /// variable does not occur.
    pub open spec fn coefficient(&self, index: usize) -> nat {
        coefficient_in(self.spec_terms(), index)
    }

    /// The value of the combination under `assignment`, in the field.
    pub open spec fn spec_eval(&self, assignment: Seq<Field>) -> nat {
        eval_of(self@, assignment)
    }

    /// Two combinations in canonical form with the same constant and the
    /// same coefficient for every variable are the same combination.
    pub proof fn lemma_determined_by_coefficients(a: LinearCombination, b: LinearCombination)
        requires
            a.wf(),
            b.wf(),
            a.constant_value() == b.constant_value(),
            forall|index: usize| a.coefficient(index) == b.coefficient(index),
        ensures
            a@ == b@,
    {
        Field::lemma_view_injective(a.spec_constant(), b.spec_constant());
        assert forall|index: usize| coefficient_in(a.spec_terms(), index) == coefficient_in(b.spec_terms(), index) by {
            assert(a.coefficient(index) == b.coefficient(index));
        }
        lemma_canonical_terms_unique(a.spec_terms(), b.spec_terms());
    }

    /// The combination that is zero.
    pub fn zero() -> (r: LinearCombination)
        ensures
            r.wf(),
            r.constant_value() == 0,
            r.spec_terms() == Seq::<(usize, Field)>::empty(),
    {
        LinearCombination { constant: Field::zero(), terms: Vec::new() }
    }

    /// The combination that is one.
    pub fn one() -> (r: LinearCombination)
        ensures
            r.wf(),
            r.constant_value() == 1,
            r.spec_terms() == Seq::<(usize, Field)>::empty(),
    {
        LinearCombination { constant: Field::one(), terms: Vec::new() }
    }

    /// The combination that is the constant `value`.
    pub fn from_field(value: Field) -> (r: LinearCombination)
        ensures
            r.wf(),
            r.spec_constant() == value,
            r.spec_terms() == Seq::<(usize, Field)>::empty(),
    {
        proof {
            use_type_invariant(&value);
        }
        LinearCombination { constant: value, terms: Vec::new() }
    }

    /// The combination that is the variable, once.
    pub fn from_variable(variable: &Variable) -> (r: LinearCombination)
        ensures
            r.wf(),
            r.constant_value() == 0,
            r.spec_terms().len() == 1,
            r.spec_terms()[0].0 == variable.spec_index(),
            r.spec_terms()[0].1@ == 1,
            forall|index: usize|
                #[trigger] r.coefficient(index) == if index == variable.spec_index() {
                    1nat
                } else {
                    0nat
                },
    {
        let mut terms: Vec<(usize, Field)> = Vec::new();
        terms.push((variable.index(), Field::one()));
        proof {
            assert forall|index: usize|
                #[trigger] coefficient_in(terms@, index) == if index == variable.spec_index() {
                    1nat
                } else {
                    0nat
                } by {
                lemma_coefficient_push(Seq::<(usize, Field)>::empty(), terms@[0], index);
                assert(Seq::<(usize, Field)>::empty().push(terms@[0]) =~= terms@);
            }
        }
        LinearCombination { constant: Field::zero(), terms }
    }

    /// Returns the constant of the combination.
    #[verifier::when_used_as_spec(spec_constant)]
    pub fn constant(&self) -> (r: Field)
        ensures
            r == self.spec_constant(),
    {
        self.constant
    }

    /// Returns the number of variables that occur in the combination.
    pub fn num_terms(&self) -> (r: usize)
        ensures
            r == self.spec_terms().len(),
    {
        self.terms.len()
    }

    /// Returns `true` if no variable occurs in the combination.
    pub fn is_constant(&self) -> (r: bool)
        ensures
            r == (forall|index: usize| #[trigger] self.coefficient(index) == 0),
    {
        proof {
            use_type_invariant(self);
            if self.terms@.len() > 0 {
                lemma_coefficient_present(self.terms@, 0);
                assert(self.coefficient(self.terms@[0].0) != 0);
            }
        }
        self.terms.len() == 0
    }

    /// Returns the coefficient of the given variable, zero where it does not
    /// occur.
    pub fn coefficient_of(&self, index: usize) -> (r: Field)
        ensures
            r@ == self.coefficient(index),
    {
        proof {
            use_type_invariant(self);
        }
        let mut i: usize = 0;
        while i < self.terms.len()
            invariant
                i <= self.terms@.len(),
                canonical_terms(self.terms@),
                forall|k: int| 0 <= k < i ==> (#[trigger] self.terms@[k]).0 != index,
            decreases self.terms.len() - i,
        {
            if self.terms[i].0 == index {
                proof {
                    lemma_coefficient_present(self.terms@, i as int);
                }
                return self.terms[i].1;
            }
            i = i + 1;
        }
        proof {
            lemma_coefficient_absent(self.terms@, index);
        }
        Field::zero()
    }

    /// Returns a copy of the combination.
    pub fn duplicate(&self) -> (r: LinearCombination)
        ensures
            r.wf(),
            r@ == self@,
    {
        proof {
            use_type_invariant(self);
        }
        LinearCombination { constant: self.constant, terms: copy_terms(&self.terms) }
    }

    /// Returns the value of the combination under `assignment`, where a
    /// variable that `assignment` does not reach counts as zero.
    pub fn eval(&self, assignment: &Vec<Field>) -> (r: Field)
        ensures
            r@ == self.spec_eval(assignment@),
    {
        let mut sum = Field::zero();
        let mut i: usize = 0;
        proof {
            assert(self.terms@.take(0) =~= Seq::<(usize, Field)>::empty());
        }
        while i < self.terms.len()
            invariant
                i <= self.terms@.len(),
                sum@ == eval_terms(self.terms@.take(i as int), assignment@),
            decreases self.terms.len() - i,
        {
            let (index, coefficient) = self.terms[i];
            let value = if index < assignment.len() {
                assignment[index]
            } else {
                Field::zero()
            };
            let product = coefficient.mul(&value);
            proof {
                let next = self.terms@.take(i + 1);
                assert(next.drop_last() =~= self.terms@.take(i as int));
                assert(next.last() == self.terms@[i as int]);
                assert(value@ == value_at(assignment@, index));
                lemma_add_mod_noop_right(sum@ as int, (coefficient@ * value@) as int, modulus() as int);
            }
            sum = sum.add(&product);
            i = i + 1;
        }
        proof {
            assert(self.terms@.take(i as int) =~= self.terms@);
        }
        self.constant.add(&sum)
    }
    /// Returns the sum of the two combinations: constant with constant, and
    /// for each variable its two coefficients, a variable whose coefficients
    /// cancel being left out.
    pub fn add(&self, other: &LinearCombination) -> (r: LinearCombination)
        ensures
            r.wf(),
            r.constant_value() == (self.constant_value() + other.constant_value()) % modulus(),
            forall|index: usize|
                #[trigger] r.coefficient(index) == (self.coefficient(index) + other.coefficient(index)) % modulus(),
            forall|assignment: Seq<Field>|
                #[trigger] r.spec_eval(assignment) == (self.spec_eval(assignment) + other.spec_eval(assignment))
                    % modulus(),
    {
        proof {
            use_type_invariant(self);
            use_type_invariant(other);
        }
        let ghost a = self.terms@;
        let ghost b = other.terms@;
        let mut out: Vec<(usize, Field)> = Vec::new();
        let mut i: usize = 0;
        let mut j: usize = 0;
        proof {
            assert(a.take(0) =~= Seq::<(usize, Field)>::empty());
            assert(b.take(0) =~= Seq::<(usize, Field)>::empty());
        }
        while i < self.terms.len() || j < other.terms.len()
            invariant
                a == self.terms@,
                b == other.terms@,
                i <= a.len(),
                j <= b.len(),
                canonical_terms(a),
                canonical_terms(b),
                canonical_terms(out@),
                forall|k: int| 0 <= k < out@.len() && i < a.len() ==> (#[trigger] out@[k]).0 < a[i as int].0,
                forall|k: int| 0 <= k < out@.len() && j < b.len() ==> (#[trigger] out@[k]).0 < b[j as int].0,
                forall|k: int| 0 <= k < i && j < b.len() ==> (#[trigger] a[k]).0 < b[j as int].0,
                forall|k: int| 0 <= k < j && i < a.len() ==> (#[trigger] b[k]).0 < a[i as int].0,
                merges(out@, a.take(i as int), b.take(j as int)),
                eval_sums(out@, a.take(i as int), b.take(j as int)),
            decreases (a.len() - i) + (b.len() - j),
        {
            let take_left = j >= other.terms.len() || (i < self.terms.len() && self.terms[i].0 < other.terms[j].0);
            let take_right = i >= self.terms.len() || (j < other.terms.len() && other.terms[j].0 < self.terms[i].0);
            if take_left {
                let term = self.terms[i];
                proof {
                    lemma_merge_left(out@, a, b, i as int, j as int);
                }
                out.push(term);
                i = i + 1;
            } else if take_right {
                let term = other.terms[j];
                proof {
                    lemma_merge_right(out@, a, b, i as int, j as int);
                }
                out.push(term);
                j = j + 1;
            } else {
                let index = self.terms[i].0;
                let sum = self.terms[i].1.add(&other.terms[j].1);
                let ghost before = out@;
                if !sum.is_zero() {
                    out.push((index, sum));
                }
                proof {
                    lemma_merge_both(before, a, b, i as int, j as int, sum, out@);
                }
                i = i + 1;
                j = j + 1;
            }
        }
        let constant = self.constant.add(&other.constant);
        proof {
            assert(a.take(i as int) =~= a);
            assert(b.take(j as int) =~= b);
            assert forall|assignment: Seq<Field>| #[trigger]
                eval_of((constant, out@), assignment) == (eval_of(self@, assignment) + eval_of(other@, assignment))
                    % modulus() by {
                let m = modulus() as int;
                let x = eval_terms(a, assignment) as int;
                let y = eval_terms(b, assignment) as int;
                let c = self.constant@ as int;
                let d = other.constant@ as int;
                lemma_add_mod_noop(c + d, x + y, m);
                lemma_add_mod_noop(c + x, d + y, m);
            }
        }
        LinearCombination { constant, terms: out }
    }

    /// Returns the combination with `value` added to its constant.
    pub fn add_constant(&self, value: &Field) -> (r: LinearCombination)
        ensures
            r.wf(),
            r.constant_value() == (self.constant_value() + value@) % modulus(),
            r.spec_terms() == self.spec_terms(),
            forall|assignment: Seq<Field>|
                #[trigger] r.spec_eval(assignment) == (self.spec_eval(assignment) + value@) % modulus(),
    {
        proof {
            use_type_invariant(self);
        }
        let constant = self.constant.add(value);
        proof {
            assert forall|assignment: Seq<Field>| #[trigger]
                eval_of((constant, self.terms@), assignment) == (eval_of(self@, assignment) + value@) % modulus() by {
                let m = modulus() as int;
                let x = eval_terms(self.terms@, assignment) as int;
                let c = self.constant@ as int;
                let k = value@ as int;
                lemma_mod_add_left(c + k, x, m);
                lemma_mod_add_left(c + x, k, m);
            }
        }
        LinearCombination { constant, terms: copy_terms(&self.terms) }
    }

    /// Returns the combination times `scalar`: the constant and every
    /// coefficient multiplied, a variable whose coefficient becomes zero being
    /// left out.
    pub fn mul_scalar(&self, scalar: &Field) -> (r: LinearCombination)
        ensures
            r.wf(),
            r.constant_value() == (self.constant_value() * scalar@) % modulus(),
            forall|index: usize| #[trigger] r.coefficient(index) == (self.coefficient(index) * scalar@) % modulus(),
            forall|assignment: Seq<Field>|
                #[trigger] r.spec_eval(assignment) == (self.spec_eval(assignment) * scalar@) % modulus(),
    {
        proof {
            use_type_invariant(self);
        }
        let ghost a = self.terms@;
        let mut out: Vec<(usize, Field)> = Vec::new();
        let mut i: usize = 0;
        proof {
            assert(a.take(0) =~= Seq::<(usize, Field)>::empty());
            assert forall|index: usize| #[trigger]
                coefficient_in(out@, index) == (coefficient_in(a.take(0), index) * scalar@) % modulus() by {
                assert(0 * scalar@ == 0) by (nonlinear_arith);
            }
            assert forall|assignment: Seq<Field>| #[trigger]
                eval_terms(out@, assignment) == (eval_terms(a.take(0), assignment) * scalar@) % modulus() by {
                assert(0 * scalar@ == 0) by (nonlinear_arith);
            }
        }
        while i < self.terms.len()
            invariant
                a == self.terms@,
                i <= a.len(),
                canonical_terms(a),
                canonical_terms(out@),
                forall|k: int| 0 <= k < out@.len() && i < a.len() ==> (#[trigger] out@[k]).0 < a[i as int].0,
                forall|index: usize| #[trigger]
                    coefficient_in(out@, index) == (coefficient_in(a.take(i as int), index) * scalar@) % modulus(),
                eval_scales(out@, a.take(i as int), scalar@),
            decreases a.len() - i,
        {
            let (index, coefficient) = self.terms[i];
            let product = coefficient.mul(scalar);
            let ghost before = out@;
            if !product.is_zero() {
                out.push((index, product));
            }
            proof {
                assert(a.take(i + 1) =~= a.take(i as int).push(a[i as int]));
                lemma_scale_step(before, out@, a.take(i as int), a[i as int], scalar@, product);
                assert forall|k: int| 0 <= k < before.len() implies (#[trigger] before[k]).0 != index by {}
                lemma_coefficient_absent(before, index);
                assert forall|other: usize| #[trigger]
                    coefficient_in(out@, other) == (coefficient_in(a.take(i + 1), other) * scalar@) % modulus() by {
                    lemma_coefficient_push(a.take(i as int), a[i as int], other);
                    if !(product@ == 0) {
                        lemma_coefficient_push(before, (index, product), other);
                    }
                }
            }
            i = i + 1;
        }
        let constant = self.constant.mul(scalar);
        proof {
            assert(a.take(i as int) =~= a);
            assert forall|assignment: Seq<Field>| #[trigger]
                eval_of((constant, out@), assignment) == (eval_of(self@, assignment) * scalar@) % modulus() by {
                let m = modulus() as int;
                let x = eval_terms(a, assignment) as int;
                let c = self.constant@ as int;
                let s = scalar@ as int;
                lemma_add_mod_noop(c * s, x * s, m);
                lemma_mul_mod_noop_left(c + x, s, m);
                assert((c + x) * s == c * s + x * s) by (nonlinear_arith);
            }
        }
        LinearCombination { constant, terms: out }
    }

    /// Returns the additive inverse of the combination: the constant and
    /// every coefficient negated.
    pub fn neg(&self) -> (r: LinearCombination)
        ensures
            r.wf(),
            r.constant_value() == (modulus() - self.constant_value()) % (modulus() as int),
            forall|index: usize|
                #[trigger] r.coefficient(index) == (modulus() - self.coefficient(index)) % (modulus() as int),
            forall|assignment: Seq<Field>|
                #[trigger] r.spec_eval(assignment) == (modulus() - self.spec_eval(assignment)) % (modulus() as int),
            r.spec_terms().len() == self.spec_terms().len(),
    {
        proof {
            use_type_invariant(self);
        }
        let ghost a = self.terms@;
        let mut out: Vec<(usize, Field)> = Vec::new();
        let mut i: usize = 0;
        proof {
            assert(a.take(0) =~= Seq::<(usize, Field)>::empty());
        }
        while i < self.terms.len()
            invariant
                a == self.terms@,
                i <= a.len(),
                out@.len() == i,
                canonical_terms(a),
                canonical_terms(out@),
                forall|k: int| 0 <= k < out@.len() ==> (#[trigger] out@[k]).0 == a[k].0,
                forall|index: usize| #[trigger]
                    coefficient_in(out@, index) == (modulus() - coefficient_in(a.take(i as int), index)) % (
                    modulus() as int),
                eval_negates(out@, a.take(i as int)),
            decreases a.len() - i,
        {
            let (index, coefficient) = self.terms[i];
            let negated = coefficient.neg();
            let ghost before = out@;
            proof {
                Field::lemma_canonical_bound(coefficient);
            }
            out.push((index, negated));
            proof {
                assert(a.take(i + 1) =~= a.take(i as int).push(a[i as int]));
                lemma_negate_step(before, a.take(i as int), a[i as int], negated);
                assert forall|other: usize| #[trigger]
                    coefficient_in(out@, other) == (modulus() - coefficient_in(a.take(i + 1), other)) % (
                    modulus() as int) by {
                    lemma_coefficient_push(a.take(i as int), a[i as int], other);
                    lemma_coefficient_push(before, (index, negated), other);
                }
            }
            i = i + 1;
        }
        let constant = self.constant.neg();
        proof {
            assert(a.take(i as int) =~= a);
            assert forall|assignment: Seq<Field>| #[trigger]
                eval_of((constant, out@), assignment) == (modulus() - eval_of(self@, assignment)) % (
                modulus() as int) by {
                let m = modulus() as int;
                let x = eval_terms(a, assignment) as int;
                let c = self.constant@ as int;
                lemma_add_mod_noop(m - c, m - x, m);
                lemma_sub_mod_noop_right(m, c + x, m);
                lemma_mod_multiples_vanish(1, m - (c + x), m);
            }
        }
        LinearCombination { constant, terms: out }
    }
}

impl Clone for LinearCombination {
    /// The copy has the same constant and the same terms.
    fn clone(&self) -> (r: LinearCombination)
        ensures
            r.wf(),
            r@ == self@,
    {
        self.duplicate()
    }
}

impl From<Field> for LinearCombination {
    /// The combination that is the constant `value`.
    fn from(value: Field) -> (r: LinearCombination)
        ensures
            r.wf(),
            r.spec_constant() == value,
            r.spec_terms() == Seq::<(usize, Field)>::empty(),
    {
        LinearCombination::from_field(value)
    }
}

impl FromSpecImpl<Field> for LinearCombination {
    open spec fn obeys_from_spec() -> bool {
        false
    }

    open spec fn from_spec(value: Field) -> LinearCombination {
        arbitrary()
    }
}

impl From<Variable> for LinearCombination {
    /// The combination that is the variable, once.
    fn from(variable: Variable) -> (r: LinearCombination)
        ensures
            r.wf(),
            r.constant_value() == 0,
            r.spec_terms().len() == 1,
            r.spec_terms()[0].0 == variable.spec_index(),
            r.spec_terms()[0].1@ == 1,
    {
        LinearCombination::from_variable(&variable)
    }
}

impl FromSpecImpl<Variable> for LinearCombination {
    open spec fn obeys_from_spec() -> bool {
        false
    }

    open spec fn from_spec(variable: Variable) -> LinearCombination {
        arbitrary()
    }
}

/// Under every assignment, `out` sums to what `a` and `b` sum to together.
spec fn eval_sums(out: Seq<(usize, Field)>, a: Seq<(usize, Field)>, b: Seq<(usize, Field)>) -> bool {
    forall|assignment: Seq<Field>| #[trigger]
        eval_terms(out, assignment) == (eval_terms(a, assignment) + eval_terms(b, assignment)) % modulus()
}

/// Under every assignment, `out` sums to `scalar` times what `a` sums to.
spec fn eval_scales(out: Seq<(usize, Field)>, a: Seq<(usize, Field)>, scalar: nat) -> bool {
    forall|assignment: Seq<Field>| #[trigger]
        eval_terms(out, assignment) == (eval_terms(a, assignment) * scalar) % modulus()
}

/// Under every assignment, `out` sums to the additive inverse of what `a`
/// sums to.
spec fn eval_negates(out: Seq<(usize, Field)>, a: Seq<(usize, Field)>) -> bool {
    forall|assignment: Seq<Field>| #[trigger]
        eval_terms(out, assignment) == (modulus() - eval_terms(a, assignment)) % (modulus() as int)
}

/// One step of negation: the next term of the prefix, with its coefficient
/// negated.
proof fn lemma_negate_step(
    before: Seq<(usize, Field)>,
    prefix: Seq<(usize, Field)>,
    term: (usize, Field),
    negated: Field,
)
    requires
        negated@ == (modulus() - term.1@) % (modulus() as int),
        eval_negates(before, prefix),
    ensures
        eval_negates(before.push((term.0, negated)), prefix.push(term)),
{
    let m = modulus() as int;
    let after = before.push((term.0, negated));
    assert forall|assignment: Seq<Field>| #[trigger]
        eval_terms(after, assignment) == (modulus() - eval_terms(prefix.push(term), assignment)) % (
        modulus() as int) by {
        let x = eval_terms(prefix, assignment) as int;
        let v = value_at(assignment, term.0) as int;
        let c = term.1@ as int;
        let n = negated@ as int;
        lemma_eval_push(prefix, term, assignment);
        lemma_eval_push(before, (term.0, negated), assignment);
        lemma_sub_mod_noop_right(m, x + c * v, m);
        lemma_mod_add_left(m - x, n * v, m);
        lemma_mul_mod_noop_left(m - c, v, m);
        lemma_add_mod_noop_right(m - x, n * v, m);
        lemma_add_mod_noop_right(m - x, (m - c) * v, m);
        assert((m - c) * v == m * v - c * v) by (nonlinear_arith);
        lemma_mod_multiples_vanish(v, m - x - c * v, m);
    }
}

/// One step of scaling: the next term of the prefix, with its coefficient
/// times the scalar, kept where that product is not zero.
proof fn lemma_scale_step(
    before: Seq<(usize, Field)>,
    after: Seq<(usize, Field)>,
    prefix: Seq<(usize, Field)>,
    term: (usize, Field),
    scalar: nat,
    product: Field,
)
    requires
        product@ == (term.1@ * scalar) % modulus(),
        after == if product@ == 0 {
            before
        } else {
            before.push((term.0, product))
        },
        eval_scales(before, prefix, scalar),
    ensures
        eval_scales(after, prefix.push(term), scalar),
{
    let m = modulus() as int;
    assert forall|assignment: Seq<Field>| #[trigger]
        eval_terms(after, assignment) == (eval_terms(prefix.push(term), assignment) * scalar) % modulus() by {
        let x = eval_terms(prefix, assignment) as int;
        let v = value_at(assignment, term.0) as int;
        let c = term.1@ as int;
        let s = scalar as int;
        let q = product@ as int;
        lemma_eval_push(prefix, term, assignment);
        lemma_mul_mod_noop_left(x + c * v, s, m);
        assert((x + c * v) * s == x * s + c * v * s) by (nonlinear_arith);
        assert(eval_terms(before, assignment) == (x * s) % m);
        lemma_mod_product(q, c, s, v, x * s, m);
        if product@ == 0 {
            assert(q * v == 0) by (nonlinear_arith)
                requires
                    q == 0,
            ;
        } else {
            lemma_eval_push(before, (term.0, product), assignment);
            lemma_mod_add_left(x * s, q * v, m);
        }
    }
}

/// `out` holds, for every variable, the sum of its coefficients in `a` and
/// in `b`.
spec fn merges(out: Seq<(usize, Field)>, a: Seq<(usize, Field)>, b: Seq<(usize, Field)>) -> bool {
    forall|index: usize| #[trigger]
        coefficient_in(out, index) == (coefficient_in(a, index) + coefficient_in(b, index)) % modulus()
}

/// One step of the sum that takes the next term of `a`, whose variable
/// comes before the next one of `b`.
proof fn lemma_merge_left(out: Seq<(usize, Field)>, a: Seq<(usize, Field)>, b: Seq<(usize, Field)>, i: int, j: int)
    requires
        0 <= i < a.len(),
        0 <= j <= b.len(),
        canonical_terms(a),
        canonical_terms(b),
        canonical_terms(out),
        j < b.len() ==> a[i].0 < b[j].0,
        forall|k: int| 0 <= k < out.len() ==> (#[trigger] out[k]).0 < a[i].0,
        forall|k: int| 0 <= k < out.len() && j < b.len() ==> (#[trigger] out[k]).0 < b[j].0,
        forall|k: int| 0 <= k < i && j < b.len() ==> (#[trigger] a[k]).0 < b[j].0,
        forall|k: int| 0 <= k < j ==> (#[trigger] b[k]).0 < a[i].0,
        merges(out, a.take(i), b.take(j)),
        eval_sums(out, a.take(i), b.take(j)),
    ensures
        canonical_terms(out.push(a[i])),
        merges(out.push(a[i]), a.take(i + 1), b.take(j)),
        eval_sums(out.push(a[i]), a.take(i + 1), b.take(j)),
        forall|k: int| 0 <= k < out.len() + 1 && i + 1 < a.len() ==> (#[trigger] out.push(a[i])[k]).0 < a[i + 1].0,
        forall|k: int| 0 <= k < out.len() + 1 && j < b.len() ==> (#[trigger] out.push(a[i])[k]).0 < b[j].0,
        forall|k: int| 0 <= k < i + 1 && j < b.len() ==> (#[trigger] a[k]).0 < b[j].0,
        forall|k: int| 0 <= k < j && i + 1 < a.len() ==> (#[trigger] b[k]).0 < a[i + 1].0,
{
    let next = out.push(a[i]);
    assert(a.take(i + 1) =~= a.take(i).push(a[i]));
    Field::lemma_canonical_bound(a[i].1);
    assert forall|assignment: Seq<Field>| #[trigger]
        eval_terms(next, assignment) == (eval_terms(a.take(i + 1), assignment) + eval_terms(b.take(j), assignment))
            % modulus() by {
        let x = eval_terms(a.take(i), assignment) as int;
        let y = eval_terms(b.take(j), assignment) as int;
        let w = (a[i].1@ * value_at(assignment, a[i].0)) as int;
        lemma_eval_push(out, a[i], assignment);
        lemma_eval_push(a.take(i), a[i], assignment);
        lemma_mod_add_left(x + y, w, modulus() as int);
        lemma_mod_add_left(x + w, y, modulus() as int);
    }
    assert forall|k: int| 0 <= k < b.take(j).len() implies (#[trigger] b.take(j)[k]).0 != a[i].0 by {
        assert(b.take(j)[k] == b[k]);
    }
    lemma_coefficient_absent(b.take(j), a[i].0);
    assert forall|index: usize| #[trigger]
        coefficient_in(next, index) == (coefficient_in(a.take(i + 1), index) + coefficient_in(b.take(j), index))
            % modulus() by {
        lemma_coefficient_push(out, a[i], index);
        lemma_coefficient_push(a.take(i), a[i], index);
        if index == a[i].0 {
            lemma_small_mod(a[i].1@, modulus());
        }
    }
    assert forall|k: int, l: int| 0 <= k < l < next.len() implies next[k].0 < next[l].0 by {
        if l < out.len() {
            assert(next[k] == out[k] && next[l] == out[l]);
        } else {
            assert(next[k] == out[k]);
        }
    }
    assert forall|k: int| 0 <= k < next.len() implies (#[trigger] next[k]).1.canonical() && next[k].1@ != 0 by {
        if k < out.len() {
            assert(next[k] == out[k]);
        }
    }
}

/// One step of the sum that takes the next term of `b`, whose variable
/// comes before the next one of `a`.
proof fn lemma_merge_right(out: Seq<(usize, Field)>, a: Seq<(usize, Field)>, b: Seq<(usize, Field)>, i: int, j: int)
    requires
        0 <= i <= a.len(),
        0 <= j < b.len(),
        canonical_terms(a),
        canonical_terms(b),
        canonical_terms(out),
        i < a.len() ==> b[j].0 < a[i].0,
        forall|k: int| 0 <= k < out.len() ==> (#[trigger] out[k]).0 < b[j].0,
        forall|k: int| 0 <= k < out.len() && i < a.len() ==> (#[trigger] out[k]).0 < a[i].0,
        forall|k: int| 0 <= k < j && i < a.len() ==> (#[trigger] b[k]).0 < a[i].0,
        forall|k: int| 0 <= k < i ==> (#[trigger] a[k]).0 < b[j].0,
        merges(out, a.take(i), b.take(j)),
        eval_sums(out, a.take(i), b.take(j)),
    ensures
        canonical_terms(out.push(b[j])),
        merges(out.push(b[j]), a.take(i), b.take(j + 1)),
        eval_sums(out.push(b[j]), a.take(i), b.take(j + 1)),
        forall|k: int| 0 <= k < out.len() + 1 && j + 1 < b.len() ==> (#[trigger] out.push(b[j])[k]).0 < b[j + 1].0,
        forall|k: int| 0 <= k < out.len() + 1 && i < a.len() ==> (#[trigger] out.push(b[j])[k]).0 < a[i].0,
        forall|k: int| 0 <= k < j + 1 && i < a.len() ==> (#[trigger] b[k]).0 < a[i].0,
        forall|k: int| 0 <= k < i && j + 1 < b.len() ==> (#[trigger] a[k]).0 < b[j + 1].0,
{
    let next = out.push(b[j]);
    assert(b.take(j + 1) =~= b.take(j).push(b[j]));
    Field::lemma_canonical_bound(b[j].1);
    assert forall|assignment: Seq<Field>| #[trigger]
        eval_terms(next, assignment) == (eval_terms(a.take(i), assignment) + eval_terms(b.take(j + 1), assignment))
            % modulus() by {
        let x = eval_terms(a.take(i), assignment) as int;
        let y = eval_terms(b.take(j), assignment) as int;
        let w = (b[j].1@ * value_at(assignment, b[j].0)) as int;
        lemma_eval_push(out, b[j], assignment);
        lemma_eval_push(b.take(j), b[j], assignment);
        lemma_mod_add_left(x + y, w, modulus() as int);
        lemma_add_mod_noop_right(x, y + w, modulus() as int);
    }
    assert forall|k: int| 0 <= k < a.take(i).len() implies (#[trigger] a.take(i)[k]).0 != b[j].0 by {
        assert(a.take(i)[k] == a[k]);
    }
    lemma_coefficient_absent(a.take(i), b[j].0);
    assert forall|index: usize| #[trigger]
        coefficient_in(next, index) == (coefficient_in(a.take(i), index) + coefficient_in(b.take(j + 1), index))
            % modulus() by {
        lemma_coefficient_push(out, b[j], index);
        lemma_coefficient_push(b.take(j), b[j], index);
        if index == b[j].0 {
            lemma_small_mod(b[j].1@, modulus());
        }
    }
    assert forall|k: int, l: int| 0 <= k < l < next.len() implies next[k].0 < next[l].0 by {
        if l < out.len() {
            assert(next[k] == out[k] && next[l] == out[l]);
        } else {
            assert(next[k] == out[k]);
        }
    }
    assert forall|k: int| 0 <= k < next.len() implies (#[trigger] next[k]).1.canonical() && next[k].1@ != 0 by {
        if k < out.len() {
            assert(next[k] == out[k]);
        }
    }
}

/// One step of the sum on a variable that is next in both `a` and `b`: its
/// coefficients are added, and the term is kept where the sum is not zero.
proof fn lemma_merge_both(
    out: Seq<(usize, Field)>,
    a: Seq<(usize, Field)>,
    b: Seq<(usize, Field)>,
    i: int,
    j: int,
    sum: Field,
    next: Seq<(usize, Field)>,
)
    requires
        next == if sum@ == 0 {
            out
        } else {
            out.push((a[i].0, sum))
        },
        0 <= i < a.len(),
        0 <= j < b.len(),
        canonical_terms(a),
        canonical_terms(b),
        canonical_terms(out),
        a[i].0 == b[j].0,
        sum.canonical(),
        sum@ == (a[i].1@ + b[j].1@) % modulus(),
        forall|k: int| 0 <= k < out.len() ==> (#[trigger] out[k]).0 < a[i].0,
        forall|k: int| 0 <= k < i ==> (#[trigger] a[k]).0 < b[j].0,
        forall|k: int| 0 <= k < j ==> (#[trigger] b[k]).0 < a[i].0,
        merges(out, a.take(i), b.take(j)),
        eval_sums(out, a.take(i), b.take(j)),
    ensures
        canonical_terms(next),
        merges(next, a.take(i + 1), b.take(j + 1)),
        eval_sums(next, a.take(i + 1), b.take(j + 1)),
        forall|k: int| 0 <= k < next.len() && i + 1 < a.len() ==> (#[trigger] next[k]).0 < a[i + 1].0,
        forall|k: int| 0 <= k < next.len() && j + 1 < b.len() ==> (#[trigger] next[k]).0 < b[j + 1].0,
        forall|k: int| 0 <= k < i + 1 && j + 1 < b.len() ==> (#[trigger] a[k]).0 < b[j + 1].0,
        forall|k: int| 0 <= k < j + 1 && i + 1 < a.len() ==> (#[trigger] b[k]).0 < a[i + 1].0,
{
    let index = a[i].0;
    assert(a.take(i + 1) =~= a.take(i).push(a[i]));
    assert(b.take(j + 1) =~= b.take(j).push(b[j]));
    assert forall|assignment: Seq<Field>| #[trigger]
        eval_terms(next, assignment) == (eval_terms(a.take(i + 1), assignment) + eval_terms(
            b.take(j + 1),
            assignment,
        )) % modulus() by {
        let m = modulus() as int;
        let x = eval_terms(a.take(i), assignment) as int;
        let y = eval_terms(b.take(j), assignment) as int;
        let v = value_at(assignment, index) as int;
        let ca = a[i].1@ as int;
        let cb = b[j].1@ as int;
        let q = sum@ as int;
        lemma_eval_push(a.take(i), a[i], assignment);
        lemma_eval_push(b.take(j), b[j], assignment);
        lemma_add_mod_noop(x + ca * v, y + cb * v, m);
        lemma_mod_sum_product(q, ca, cb, v, x + y, m);
        if sum@ == 0 {
            assert(q * v == 0) by (nonlinear_arith)
                requires
                    q == 0,
            ;
        } else {
            lemma_eval_push(out, (index, sum), assignment);
            lemma_mod_add_left(x + y, q * v, m);
        }
    }
    assert forall|k: int| 0 <= k < out.len() implies (#[trigger] out[k]).0 != index by {}
    lemma_coefficient_absent(out, index);
    assert forall|other: usize| #[trigger]
        coefficient_in(next, other) == (coefficient_in(a.take(i + 1), other) + coefficient_in(b.take(j + 1), other))
            % modulus() by {
        lemma_coefficient_push(a.take(i), a[i], other);
        lemma_coefficient_push(b.take(j), b[j], other);
        if sum@ != 0 {
            lemma_coefficient_push(out, (index, sum), other);
        }
    }
    assert forall|k: int, l: int| 0 <= k < l < next.len() implies next[k].0 < next[l].0 by {
        if l < out.len() {
            assert(next[k] == out[k] && next[l] == out[l]);
        } else {
            assert(next[k] == out[k]);
        }
    }
    assert forall|k: int| 0 <= k < next.len() implies (#[trigger] next[k]).1.canonical() && next[k].1@ != 0 by {
        if k < out.len() {
            assert(next[k] == out[k]);
        }
    }
    assert forall|k: int| 0 <= k < next.len() && i + 1 < a.len() implies (#[trigger] next[k]).0 < a[i + 1].0 by {
        if k < out.len() {
            assert(next[k] == out[k]);
        }
    }
    assert forall|k: int| 0 <= k < next.len() && j + 1 < b.len() implies (#[trigger] next[k]).0 < b[j + 1].0 by {
        if k < out.len() {
            assert(next[k] == out[k]);
        }
    }
}

/// Copies the terms one by one.
fn copy_terms(terms: &Vec<(usize, Field)>) -> (r: Vec<(usize, Field)>)
    ensures
        r@ == terms@,
{
    let mut out: Vec<(usize, Field)> = Vec::new();
    let mut i: usize = 0;
    while i < terms.len()
        invariant
            i <= terms@.len(),
            out@ == terms@.take(i as int),
        decreases terms.len() - i,
    {
        out.push(terms[i]);
        proof {
            assert(terms@.take(i + 1) =~= terms@.take(i as int).push(terms@[i as int]));
        }
        i = i + 1;
    }
    proof {
        assert(terms@.take(i as int) =~= terms@);
    }
    out
}

} // verus!
