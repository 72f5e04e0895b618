use circuit_ledger::circuit::{Circuit, CircuitScope, ConstraintSystem, LinearCombination, Mode, Variable};
use circuit_ledger::field::Field;

fn f(x: u64) -> Field {
    Field::from_u64(x)
}

fn var(lc_of: &Variable) -> LinearCombination {
    LinearCombination::from_variable(lc_of)
}

fn counters(circuit: &Circuit) -> (usize, usize, usize, usize) {
    (circuit.num_constants(), circuit.num_public(), circuit.num_private(), circuit.num_constraints())
}

#[test]
fn reset_round_trip() {
    let mut circuit = Circuit::new();
    circuit.new_variable(Mode::Private, f(9));
    circuit.scope("leaked");
    circuit.reset_circuit();
    assert_eq!(counters(&circuit), (0, 1, 0, 0));
    assert_eq!(circuit.cs().name(), "ConstraintSystem::new");
    assert_eq!(circuit.cs().previous(), None);

    circuit.new_variable(Mode::Public, f(1));
    circuit.new_variable(Mode::Private, f(2));
    circuit.new_variable(Mode::Private, f(3));
    circuit.new_variable(Mode::Constant, f(4));
    circuit.new_variable(Mode::Constant, f(5));
    circuit.new_variable(Mode::Constant, f(6));
    assert_eq!(counters(&circuit), (3, 2, 2, 0));
}

#[test]
fn fresh_circuit_holds_the_public_one() {
    let circuit = Circuit::new();
    assert_eq!(counters(&circuit), (0, 1, 0, 0));
    assert_eq!(circuit.system().assignment(), &vec![Field::one()]);
    assert!(circuit.is_satisfied());
    assert_eq!(circuit.cs().name(), "ConstraintSystem::new");
}

#[test]
fn scoped_restores_the_scope_and_keeps_the_allocation() {
    let mut circuit = Circuit::new();
    let before = counters(&circuit);
    circuit.scoped("a", |a| {
        assert_eq!(a.cs().name(), "ConstraintSystem::new/a");
        a.scoped("b", |b| {
            assert_eq!(b.cs().name(), "ConstraintSystem::new/a/b");
            assert_eq!(b.cs().previous().unwrap(), "ConstraintSystem::new/a");
            b.new_variable(Mode::Private, f(7));
        });
        assert_eq!(a.cs().name(), "ConstraintSystem::new/a");
    });
    assert_eq!(circuit.cs().name(), "ConstraintSystem::new");
    assert_eq!(circuit.cs().previous(), None);
    assert_eq!(counters(&circuit), (before.0, before.1, before.2 + 1, before.3));
}

#[test]
fn scope_replaces_the_current_scope() {
    let mut circuit = Circuit::new();
    let child = circuit.scope("layer1");
    assert_eq!(child.name(), "ConstraintSystem::new/layer1");
    assert_eq!(child.previous().unwrap(), "ConstraintSystem::new");
    assert_eq!(circuit.cs().name(), "ConstraintSystem::new/layer1");
    let grandchild = circuit.scope("gadget");
    assert_eq!(grandchild.name(), "ConstraintSystem::new/layer1/gadget");
    assert_eq!(circuit.cs().name(), "ConstraintSystem::new/layer1/gadget");
    assert_eq!(counters(&circuit), (0, 1, 0, 0));
}

#[test]
fn scope_paths_are_joined_by_a_slash() {
    let root = CircuitScope::new(String::from("root"), None);
    let gadget = root.scope("layer1").scope("gadget");
    assert_eq!(gadget.name(), "root/layer1/gadget");
    assert_eq!(gadget.previous().unwrap(), "root/layer1");
    assert_eq!(root.scope("").name(), "root/");
    let copy = gadget.clone();
    assert_eq!(copy.name(), gadget.name());
    assert_eq!(copy.previous(), gadget.previous());
}

#[test]
fn variables_are_numbered_in_order_of_allocation() {
    let mut circuit = Circuit::new();
    let a = circuit.new_variable(Mode::Constant, f(10));
    let b = circuit.new_variable(Mode::Public, f(20));
    let c = circuit.new_variable(Mode::Private, f(30));
    assert_eq!((a.index(), b.index(), c.index()), (1, 2, 3));
    assert_eq!((a.mode(), b.mode(), c.mode()), (Mode::Constant, Mode::Public, Mode::Private));
    assert_eq!((a.value(), b.value(), c.value()), (f(10), f(20), f(30)));
    assert!(a.is_constant() && b.is_public() && c.is_private());
    assert!(!a.is_public() && !b.is_private() && !c.is_constant());
    assert_eq!(circuit.system().assignment(), &vec![f(1), f(10), f(20), f(30)]);
    assert_eq!(a, Variable::new(Mode::Private, 1, f(99)));
    assert_ne!(a, b);
}

#[test]
fn enforce_records_the_constraint_under_the_current_scope() {
    let mut circuit = Circuit::new();
    let x = circuit.new_variable(Mode::Private, f(3));
    let y = circuit.new_variable(Mode::Private, f(5));
    let z = circuit.new_variable(Mode::Public, f(15));
    circuit.scoped("mul", |c| {
        c.enforce(|| (var(&x), var(&y), var(&z)));
    });
    assert_eq!(counters(&circuit), (0, 2, 2, 1));
    assert!(circuit.is_satisfied());
    let constraint = &circuit.system().constraints()[0];
    assert_eq!(constraint.scope(), "ConstraintSystem::new/mul");
    let (a, b, c) = constraint.to_terms();
    assert_eq!(a.coefficient_of(x.index()), f(1));
    assert_eq!(b.coefficient_of(y.index()), f(1));
    assert_eq!(c.coefficient_of(z.index()), f(1));
    assert!(constraint.is_satisfied(circuit.system().assignment()));
}

#[test]
fn one_constraint_that_fails_leaves_the_system_unsatisfied() {
    let mut circuit = Circuit::new();
    let x = circuit.new_variable(Mode::Private, f(3));
    let y = circuit.new_variable(Mode::Private, f(5));
    let z = circuit.new_variable(Mode::Public, f(15));
    circuit.enforce(|| (var(&x), var(&y), var(&z)));
    assert!(circuit.is_satisfied());
    circuit.enforce(|| (var(&x), var(&y), var(&x)));
    assert!(!circuit.is_satisfied());
    circuit.enforce(|| (var(&x), Circuit::one(), var(&x)));
    assert!(!circuit.is_satisfied());
    assert_eq!(circuit.num_constraints(), 3);
    let holds: Vec<bool> =
        circuit.system().constraints().iter().map(|c| c.is_satisfied(circuit.system().assignment())).collect();
    assert_eq!(holds, vec![true, false, true]);
}

#[test]
fn constraint_system_counts_each_mode() {
    let mut system = ConstraintSystem::new();
    assert_eq!((system.num_constants(), system.num_public(), system.num_private()), (0, 1, 0));
    let c = system.new_constant(f(2));
    let p = system.new_public(f(3));
    let w = system.new_private(f(6));
    assert_eq!((c.index(), p.index(), w.index()), (1, 2, 3));
    assert_eq!((c.mode(), p.mode(), w.mode()), (Mode::Constant, Mode::Public, Mode::Private));
    assert_eq!((system.num_constants(), system.num_public(), system.num_private()), (1, 2, 1));
    system.enforce(String::from("here"), var(&c), var(&p), var(&w));
    assert_eq!(system.num_constraints(), 1);
    assert!(system.is_satisfied());
    system.enforce(String::from("here"), var(&c), var(&c), var(&w));
    assert!(!system.is_satisfied());
}

#[test]
fn scope_delegates_to_the_system() {
    let mut system = ConstraintSystem::new();
    let scope = CircuitScope::new(String::from("root"), None).scope("gadget");
    let c = scope.new_constant(&mut system, f(4));
    let p = scope.new_public(&mut system, f(5));
    let w = scope.new_private(&mut system, f(20));
    scope.enforce(&mut system, || (var(&c), var(&p), var(&w)));
    assert_eq!(
        (
            scope.num_constants(&system),
            scope.num_public(&system),
            scope.num_private(&system),
            scope.num_constraints(&system)
        ),
        (1, 2, 1, 1)
    );
    assert!(scope.is_satisfied(&system));
    assert_eq!(system.constraints()[0].scope(), "root/gadget");
}

#[test]
fn linear_combination_starts_canonical() {
    assert_eq!(LinearCombination::zero().constant(), f(0));
    assert_eq!(LinearCombination::one().constant(), f(1));
    assert_eq!(Circuit::zero().constant(), f(0));
    assert_eq!(Circuit::one().constant(), f(1));
    assert_eq!(LinearCombination::zero().num_terms(), 0);
    assert_eq!(LinearCombination::one().num_terms(), 0);
    assert!(LinearCombination::from_field(f(9)).is_constant());
    assert_eq!(LinearCombination::from(f(9)).constant(), f(9));
    let x = Variable::new(Mode::Private, 4, f(11));
    let lc = LinearCombination::from(x);
    assert_eq!((lc.constant(), lc.num_terms(), lc.coefficient_of(4), lc.coefficient_of(3)), (f(0), 1, f(1), f(0)));
    assert!(!lc.is_constant());
}

#[test]
fn sum_adds_coefficients_and_drops_what_cancels() {
    let x = Variable::new(Mode::Private, 1, f(2));
    let y = Variable::new(Mode::Private, 2, f(3));
    let z = Variable::new(Mode::Private, 3, f(4));
    // 5 + 2x + 7z
    let left = var(&x).mul_scalar(&f(2)).add(&var(&z).mul_scalar(&f(7))).add_constant(&f(5));
    // 1 - 2x + 3y + z
    let right = var(&x).mul_scalar(&f(2)).neg().add(&var(&y).mul_scalar(&f(3))).add(&var(&z)).add_constant(&f(1));
    let sum = left.add(&right);
    assert_eq!(sum.constant(), f(6));
    assert_eq!(sum.num_terms(), 2);
    assert_eq!(sum.coefficient_of(1), f(0));
    assert_eq!(sum.coefficient_of(2), f(3));
    assert_eq!(sum.coefficient_of(3), f(8));
    let other_way = right.add(&left);
    assert_eq!(other_way.constant(), f(6));
    assert_eq!(
        (other_way.num_terms(), other_way.coefficient_of(2), other_way.coefficient_of(3)),
        (2, f(3), f(8))
    );
    let nothing = left.add(&left.neg());
    assert_eq!((nothing.constant(), nothing.num_terms()), (f(0), 0));
    assert!(nothing.is_constant());
}

#[test]
fn scaling_by_zero_leaves_no_term() {
    let x = Variable::new(Mode::Private, 1, f(2));
    let lc = var(&x).mul_scalar(&f(6)).add_constant(&f(4));
    let scaled = lc.mul_scalar(&f(5));
    assert_eq!((scaled.constant(), scaled.num_terms(), scaled.coefficient_of(1)), (f(20), 1, f(30)));
    let gone = lc.mul_scalar(&f(0));
    assert_eq!((gone.constant(), gone.num_terms(), gone.coefficient_of(1)), (f(0), 0, f(0)));
    let copy = lc.duplicate();
    assert_eq!((copy.constant(), copy.num_terms(), copy.coefficient_of(1)), (f(4), 1, f(6)));
}

#[test]
fn evaluation_is_constant_plus_weighted_values() {
    let x = Variable::new(Mode::Private, 1, f(0));
    let y = Variable::new(Mode::Private, 2, f(0));
    let far = Variable::new(Mode::Private, 9, f(0));
    // 5 + 2x + 3y + 4far
    let lc = var(&x)
        .mul_scalar(&f(2))
        .add(&var(&y).mul_scalar(&f(3)))
        .add(&var(&far).mul_scalar(&f(4)))
        .add_constant(&f(5));
    let assignment = vec![f(1), f(10), f(100)];
    assert_eq!(lc.eval(&assignment), f(5 + 20 + 300));
    assert_eq!(lc.eval(&vec![]), f(5));
    assert_eq!(lc.neg().eval(&assignment), f(325).neg());
    assert_eq!(LinearCombination::zero().eval(&assignment), f(0));
    assert_eq!(LinearCombination::one().eval(&assignment), f(1));
}

#[test]
fn mode_tells_its_kind() {
    assert!(Mode::Constant.is_constant() && !Mode::Constant.is_public() && !Mode::Constant.is_private());
    assert!(Mode::Public.is_public() && !Mode::Public.is_constant() && !Mode::Public.is_private());
    assert!(Mode::Private.is_private() && !Mode::Private.is_constant() && !Mode::Private.is_public());
}
