use circuit_ledger::circuit::{Inject, Mode};

/// A circuit value that remembers the mode and the primitive it came from.
#[derive(Clone, Copy, Debug, PartialEq, Eq)]
struct Lifted {
    mode: Mode,
    value: u64,
}

impl Inject for Lifted {
    type Primitive = u64;

    fn new(mode: Mode, value: u64) -> Self {
        Lifted { mode, value }
    }
}

#[test]
fn constant_is_new_with_constant_mode() {
    assert_eq!(Lifted::constant(7), Lifted::new(Mode::Constant, 7));
    assert_eq!(Lifted::constant(7), Lifted { mode: Mode::Constant, value: 7 });
}

#[test]
fn vec_lift_keeps_order_and_mode() {
    let lifted: Vec<Lifted> = Inject::new(Mode::Private, vec![3, 1, 2]);
    assert_eq!(
        lifted,
        vec![
            Lifted { mode: Mode::Private, value: 3 },
            Lifted { mode: Mode::Private, value: 1 },
            Lifted { mode: Mode::Private, value: 2 },
        ]
    );
    let empty: Vec<Lifted> = Inject::new(Mode::Public, vec![]);
    assert!(empty.is_empty());
}

#[test]
fn pair_lift_maps_each_position() {
    let lifted: (Lifted, Vec<Lifted>) = Inject::new(Mode::Public, (5, vec![6]));
    assert_eq!(lifted.0, Lifted { mode: Mode::Public, value: 5 });
    assert_eq!(lifted.1, vec![Lifted { mode: Mode::Public, value: 6 }]);
}

#[test]
fn larger_tuples_map_each_position() {
    let l = |value: u64| Lifted { mode: Mode::Constant, value };
    let three: (Lifted, Lifted, Lifted) = Inject::new(Mode::Constant, (1, 2, 3));
    assert_eq!(three, (l(1), l(2), l(3)));
    let four: (Lifted, Lifted, Lifted, Lifted) = Inject::constant((1, 2, 3, 4));
    assert_eq!(four, (l(1), l(2), l(3), l(4)));
    let five: (Lifted, Lifted, Lifted, Lifted, Vec<Lifted>) = Inject::new(Mode::Constant, (1, 2, 3, 4, vec![5, 6]));
    assert_eq!(five, (l(1), l(2), l(3), l(4), vec![l(5), l(6)]));
}

#[test]
fn map_lift_keeps_the_order_of_insertion() {
    let mut primitive: indexmap::IndexMap<u64, u64> = indexmap::IndexMap::new();
    primitive.insert(30, 3);
    primitive.insert(10, 1);
    primitive.insert(20, 2);
    let lifted: indexmap::IndexMap<Keyed, Lifted> = Inject::new(Mode::Constant, primitive);
    let entries: Vec<(Keyed, Lifted)> = lifted.into_iter().collect();
    assert_eq!(
        entries,
        vec![
            (Keyed(30), Lifted { mode: Mode::Constant, value: 3 }),
            (Keyed(10), Lifted { mode: Mode::Constant, value: 1 }),
            (Keyed(20), Lifted { mode: Mode::Constant, value: 2 }),
        ]
    );
    let empty: indexmap::IndexMap<Keyed, Lifted> = Inject::new(Mode::Private, indexmap::IndexMap::new());
    assert!(empty.is_empty());
}

#[test]
fn map_lift_holds_one_entry_for_keys_that_compare_equal() {
    let mut primitive: indexmap::IndexMap<u64, u64> = indexmap::IndexMap::new();
    primitive.insert(7, 1);
    primitive.insert(8, 2);
    primitive.insert(17, 3);
    let lifted: indexmap::IndexMap<LastDigit, Lifted> = Inject::new(Mode::Public, primitive);
    let entries: Vec<(u64, Lifted)> = lifted.into_iter().map(|(k, v)| (k.0, v)).collect();
    assert_eq!(
        entries,
        vec![(7, Lifted { mode: Mode::Public, value: 3 }), (8, Lifted { mode: Mode::Public, value: 2 })]
    );
}

/// A circuit key that is its primitive.
#[derive(Clone, Copy, Debug, PartialEq, Eq, Hash)]
struct Keyed(u64);

impl Inject for Keyed {
    type Primitive = u64;

    fn new(_mode: Mode, value: u64) -> Self {
        Keyed(value)
    }
}

/// A circuit key that compares by the last digit of its primitive.
#[derive(Clone, Copy, Debug)]
struct LastDigit(u64);

impl PartialEq for LastDigit {
    fn eq(&self, other: &Self) -> bool {
        self.0 % 10 == other.0 % 10
    }
}

impl Eq for LastDigit {}

impl std::hash::Hash for LastDigit {
    fn hash<H: std::hash::Hasher>(&self, state: &mut H) {
        (self.0 % 10).hash(state)
    }
}

impl Inject for LastDigit {
    type Primitive = u64;

    fn new(_mode: Mode, value: u64) -> Self {
        LastDigit(value)
    }
}
