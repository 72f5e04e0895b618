//! Lifting a primitive value into a circuit, and the lifts of containers
//! that follow from the lifts of their items.

use crate::circuit::mode::Mode;
use core::hash::Hash;
use indexmap::IndexMap;
use vstd::prelude::*;

verus! {

/// Operations to inject from a primitive form into a circuit environment.
pub trait Inject: Sized {
    type Primitive;

    /// Whether `circuit` is what `value` becomes in a circuit under `mode`.
    /// An implementation says here what its `new` returns; one that says
    /// nothing claims nothing.
    open spec fn injected(mode: Mode, value: Self::Primitive, circuit: Self) -> bool {
        true
    }

    /// Initializes a circuit of the given mode and primitive value.
    fn new(mode: Mode, value: Self::Primitive) -> (r: Self)
        ensures
            Self::injected(mode, value, r),
    ;

    /// Initializes a constant of the given primitive value.
    fn constant(value: Self::Primitive) -> (r: Self)
        ensures
            Self::injected(Mode::Constant, value, r),
    {
        Self::new(Mode::Constant, value)
    }
}

/********************/
/***** IndexMap *****/
/********************/

/// The insertion-ordered map of `indexmap`. Nothing inside it is visible
/// here: its entries go in and come out through the two functions below.
#[verifier::external_type_specification]
#[verifier::external_body]
#[verifier::reject_recursive_types(K)]
#[verifier::reject_recursive_types(V)]
#[verifier::reject_recursive_types(S)]
pub struct ExIndexMap<K, V, S>(IndexMap<K, V, S>);

/// Hands out the entries of the map through `IndexMap::into_iter`, which
/// goes through them in the order of insertion. Nothing is claimed of the
/// result here; [`Inject::injected`] of the map speaks of this call.
#[verifier::external_body]
fn into_entries<K, V>(map: IndexMap<K, V>) -> (r: Vec<(K, V)>) {
    map.into_iter().collect()
}

/// Collects the entries into a map through `IndexMap::from_iter`, which
/// inserts them in order: a key that compares equal to an earlier one keeps
/// the earlier key and its place, and takes the later value. Nothing is
/// claimed of the result here; [`Inject::injected`] of the map speaks of
/// this call.
#[verifier::external_body]
fn from_entries<K: Eq + Hash, V>(entries: Vec<(K, V)>) -> (r: IndexMap<K, V>) {
    entries.into_iter().collect()
}

impl<C0: Eq + Hash + Inject, C1: Inject> Inject for IndexMap<C0, C1> {
    type Primitive = IndexMap<C0::Primitive, C1::Primitive>;

    /// The map collected from the lifts of the entries of `value`, key and
    /// value each under the one mode, in the order of insertion. Where two
    /// lifted keys compare equal, which they need not for equal primitives
    /// under a mode other than `Constant`, the map holds one entry for them.
    closed spec fn injected(
        mode: Mode,
        value: IndexMap<C0::Primitive, C1::Primitive>,
        circuit: IndexMap<C0, C1>,
    ) -> bool {
        exists|entries: Vec<(C0::Primitive, C1::Primitive)>, lifted: Vec<(C0, C1)>|
            #![trigger
                call_ensures(into_entries::<C0::Primitive, C1::Primitive>, (value,), entries),
                call_ensures(from_entries::<C0, C1>, (lifted,), circuit)
            ]
            {
                &&& call_ensures(into_entries::<C0::Primitive, C1::Primitive>, (value,), entries)
                &&& <Vec<(C0, C1)> as Inject>::injected(mode, entries, lifted)
                &&& call_ensures(from_entries::<C0, C1>, (lifted,), circuit)
            }
    }

    #[inline]
    fn new(mode: Mode, value: IndexMap<C0::Primitive, C1::Primitive>) -> (r: IndexMap<C0, C1>) {
        let entries = into_entries(value);
        let lifted: Vec<(C0, C1)> = Inject::new(mode, entries);
        let circuit = from_entries(lifted);
        proof {
            assert(call_ensures(into_entries::<C0::Primitive, C1::Primitive>, (value,), entries));
            assert(call_ensures(from_entries::<C0, C1>, (lifted,), circuit));
        }
        circuit
    }
}

/********************/
/****** Arrays ******/
/********************/

impl<C: Inject> Inject for Vec<C> {
    type Primitive = Vec<C::Primitive>;

    /// As many items, each the lift of the item at its place, all under the
    /// one mode.
    open spec fn injected(mode: Mode, value: Vec<C::Primitive>, circuit: Vec<C>) -> bool {
        &&& circuit@.len() == value@.len()
        &&& forall|i: int| 0 <= i < value@.len() ==> C::injected(mode, value@[i], #[trigger] circuit@[i])
    }

    #[inline]
    fn new(mode: Mode, value: Vec<C::Primitive>) -> (r: Vec<C>) {
        let ghost items = value@;
        let mut circuit: Vec<C> = Vec::new();
        for v in it: value.into_iter()
            invariant
                it.seq() == items,
                circuit@.len() == it.index(),
                forall|i: int| 0 <= i < circuit@.len() ==> C::injected(mode, items[i], #[trigger] circuit@[i]),
        {
            circuit.push(C::new(mode, v));
        }
        circuit
    }
}

/********************/
/****** Tuples ******/
/********************/

impl<C0: Inject, C1: Inject> Inject for (C0, C1) {
    type Primitive = (C0::Primitive, C1::Primitive);

    /// Each position is the lift of the primitive at that position.
    open spec fn injected(mode: Mode, value: (C0::Primitive, C1::Primitive), circuit: (C0, C1)) -> bool {
        &&& C0::injected(mode, value.0, circuit.0)
        &&& C1::injected(mode, value.1, circuit.1)
    }

    #[inline]
    fn new(mode: Mode, value: (C0::Primitive, C1::Primitive)) -> (r: (C0, C1)) {
        (C0::new(mode, value.0), C1::new(mode, value.1))
    }
}

impl<C0: Inject, C1: Inject, C2: Inject> Inject for (C0, C1, C2) {
    type Primitive = (C0::Primitive, C1::Primitive, C2::Primitive);

    /// Each position is the lift of the primitive at that position.
    open spec fn injected(
        mode: Mode,
        value: (C0::Primitive, C1::Primitive, C2::Primitive),
        circuit: (C0, C1, C2),
    ) -> bool {
        &&& C0::injected(mode, value.0, circuit.0)
        &&& C1::injected(mode, value.1, circuit.1)
        &&& C2::injected(mode, value.2, circuit.2)
    }

    #[inline]
    fn new(mode: Mode, value: (C0::Primitive, C1::Primitive, C2::Primitive)) -> (r: (C0, C1, C2)) {
        (C0::new(mode, value.0), C1::new(mode, value.1), C2::new(mode, value.2))
    }
}

impl<C0: Inject, C1: Inject, C2: Inject, C3: Inject> Inject for (C0, C1, C2, C3) {
    type Primitive = (C0::Primitive, C1::Primitive, C2::Primitive, C3::Primitive);

    /// Each position is the lift of the primitive at that position.
    open spec fn injected(
        mode: Mode,
        value: (C0::Primitive, C1::Primitive, C2::Primitive, C3::Primitive),
        circuit: (C0, C1, C2, C3),
    ) -> bool {
        &&& C0::injected(mode, value.0, circuit.0)
        &&& C1::injected(mode, value.1, circuit.1)
        &&& C2::injected(mode, value.2, circuit.2)
        &&& C3::injected(mode, value.3, circuit.3)
    }

    #[inline]
    fn new(mode: Mode, value: (C0::Primitive, C1::Primitive, C2::Primitive, C3::Primitive)) -> (r: (
        C0,
        C1,
        C2,
        C3,
    )) {
        (C0::new(mode, value.0), C1::new(mode, value.1), C2::new(mode, value.2), C3::new(mode, value.3))
    }
}

impl<C0: Inject, C1: Inject, C2: Inject, C3: Inject, C4: Inject> Inject for (C0, C1, C2, C3, C4) {
    type Primitive = (C0::Primitive, C1::Primitive, C2::Primitive, C3::Primitive, C4::Primitive);

    /// Each position is the lift of the primitive at that position.
    open spec fn injected(
        mode: Mode,
        value: (C0::Primitive, C1::Primitive, C2::Primitive, C3::Primitive, C4::Primitive),
        circuit: (C0, C1, C2, C3, C4),
    ) -> bool {
        &&& C0::injected(mode, value.0, circuit.0)
        &&& C1::injected(mode, value.1, circuit.1)
        &&& C2::injected(mode, value.2, circuit.2)
        &&& C3::injected(mode, value.3, circuit.3)
        &&& C4::injected(mode, value.4, circuit.4)
    }

    #[inline]
    fn new(mode: Mode, value: (C0::Primitive, C1::Primitive, C2::Primitive, C3::Primitive, C4::Primitive)) -> (r: (
        C0,
        C1,
        C2,
        C3,
        C4,
    )) {
        (
            C0::new(mode, value.0),
            C1::new(mode, value.1),
            C2::new(mode, value.2),
            C3::new(mode, value.3),
            C4::new(mode, value.4),
        )
    }
}

} // verus!
