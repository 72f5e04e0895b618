//! Elements of the BLS12-377 scalar field.
//!
//! A [`Field`] holds the canonical residue of an element in four little-endian
//! 64-bit limbs. The arithmetic itself is done by `snarkvm_curves`; this module
//! states what that arithmetic returns over the residues.

use snarkvm_curves::bls12_377::Fr;
use snarkvm_fields::PrimeField;
use snarkvm_utilities::biginteger::BigInteger256;
use vstd::prelude::*;

verus! {

/// The order of the BLS12-377 scalar field.
pub open spec fn modulus() -> nat {
    8444461749428370424248824938781546531375899335154063827935233455917409239041nat
}

/// The number that four little-endian 64-bit limbs stand for.
pub open spec fn limbs_value(l0: u64, l1: u64, l2: u64, l3: u64) -> nat {
    (l0 as nat) + (l1 as nat) * 0x1_0000_0000_0000_0000nat
        + (l2 as nat) * 0x1_0000_0000_0000_0000_0000_0000_0000_0000nat
        + (l3 as nat) * 0x1_0000_0000_0000_0000_0000_0000_0000_0000_0000_0000_0000_0000nat
}

/// An element of the BLS12-377 scalar field, held as its canonical residue.
#[derive(Clone, Copy, Debug, PartialEq, Eq, Hash, Structural)]
pub struct Field {
    l0: u64,
    l1: u64,
    l2: u64,
    l3: u64,
}

impl View for Field {
    type V = nat;

    /// The residue, a number below [`modulus`].
    closed spec fn view(&self) -> nat {
        limbs_value(self.l0, self.l1, self.l2, self.l3)
    }
}

impl Field {
    /// Every element in executable code is canonical.
    #[verifier::type_invariant]
    pub closed spec fn canonical(&self) -> bool {
        limbs_value(self.l0, self.l1, self.l2, self.l3) < modulus()
    }

    /// The limbs of the residue, least significant first.
    pub closed spec fn spec_limbs(&self) -> (u64, u64, u64, u64) {
        (self.l0, self.l1, self.l2, self.l3)
    }

    /// The additive identity.
    pub fn zero() -> (r: Field)
        ensures
            r@ == 0,
            r.canonical(),
    {
        Field { l0: 0, l1: 0, l2: 0, l3: 0 }
    }

    /// The multiplicative identity.
    pub fn one() -> (r: Field)
        ensures
            r@ == 1,
            r.canonical(),
    {
        Field { l0: 1, l1: 0, l2: 0, l3: 0 }
    }

    /// The element whose residue is `x`.
    pub fn from_u64(x: u64) -> (r: Field)
        ensures
            r@ == x,
            r.canonical(),
    {
        Field { l0: x, l1: 0, l2: 0, l3: 0 }
    }

    /// The element with the given limbs, least significant first, or `None`
    /// where they stand for a number that is not below the modulus.
    pub fn from_limbs(limbs: [u64; 4]) -> (r: Option<Field>)
        ensures
            r is Some <==> limbs_value(limbs[0], limbs[1], limbs[2], limbs[3]) < modulus(),
            r matches Some(f) ==> f@ == limbs_value(limbs[0], limbs[1], limbs[2], limbs[3])
                && f.spec_limbs() == (limbs[0], limbs[1], limbs[2], limbs[3])
                && f.canonical(),
    {
        let l0: u64 = limbs[0];
        let l1: u64 = limbs[1];
        let l2: u64 = limbs[2];
        let l3: u64 = limbs[3];
        let below = l3 < 1345280370688173398u64 || (l3 == 1345280370688173398u64 && (l2
            < 6968279316240510977u64 || (l2 == 6968279316240510977u64 && (l1
            < 6461107452199829505u64 || (l1 == 6461107452199829505u64 && l0
            < 725501752471715841u64)))));
        if below {
            Some(Field { l0, l1, l2, l3 })
        } else {
            None
        }
    }

    /// The limbs of the residue, least significant first.
    pub fn to_limbs(&self) -> (r: [u64; 4])
        ensures
            (r[0], r[1], r[2], r[3]) == self.spec_limbs(),
            limbs_value(r[0], r[1], r[2], r[3]) == self@,
    {
        [self.l0, self.l1, self.l2, self.l3]
    }

    /// Whether this is the additive identity.
    pub fn is_zero(&self) -> (r: bool)
        ensures
            r == (self@ == 0),
    {
        self.l0 == 0 && self.l1 == 0 && self.l2 == 0 && self.l3 == 0
    }

    /// The sum of two elements.
    pub fn add(&self, other: &Field) -> (r: Field)
        ensures
            r@ == (self@ + other@) % modulus(),
            r.canonical(),
    {
        proof {
            use_type_invariant(self);
            use_type_invariant(other);
        }
        fr_add(self, other)
    }

    /// The product of two elements.
    pub fn mul(&self, other: &Field) -> (r: Field)
        ensures
            r@ == (self@ * other@) % modulus(),
            r.canonical(),
    {
        proof {
            use_type_invariant(self);
            use_type_invariant(other);
        }
        fr_mul(self, other)
    }

    /// The additive inverse of an element.
    pub fn neg(&self) -> (r: Field)
        ensures
            r@ == (modulus() - self@) % (modulus() as int),
            r.canonical(),
    {
        proof {
            use_type_invariant(self);
        }
        fr_neg(self)
    }

    /// Two elements with the same residue are the same element.
    pub proof fn lemma_view_injective(a: Field, b: Field)
        ensures
            a@ == b@ <==> a == b,
    {
        if a@ == b@ {
            lemma_limbs_injective(a.l0, a.l1, a.l2, a.l3, b.l0, b.l1, b.l2, b.l3);
        }
    }

    /// A canonical element's residue is below the modulus.
    pub proof fn lemma_canonical_bound(a: Field)
        requires
            a.canonical(),
        ensures
            a@ < modulus(),
    {
    }
}

/// Four limbs are determined by the number that they stand for.
proof fn lemma_limbs_injective(a0: u64, a1: u64, a2: u64, a3: u64, b0: u64, b1: u64, b2: u64, b3: u64)
    requires
        limbs_value(a0, a1, a2, a3) == limbs_value(b0, b1, b2, b3),
    ensures
        a0 == b0,
        a1 == b1,
        a2 == b2,
        a3 == b3,
{
    let ya: int = a2 + 0x1_0000_0000_0000_0000 * a3;
    let yb: int = b2 + 0x1_0000_0000_0000_0000 * b3;
    let xa: int = a1 + 0x1_0000_0000_0000_0000 * ya;
    let xb: int = b1 + 0x1_0000_0000_0000_0000 * yb;
    assert(limbs_value(a0, a1, a2, a3) == a0 + 0x1_0000_0000_0000_0000 * xa);
    assert(limbs_value(b0, b1, b2, b3) == b0 + 0x1_0000_0000_0000_0000 * xb);
    assert(a0 - b0 == 0x1_0000_0000_0000_0000 * (xb - xa));
    assert(xb - xa == 0);
    assert(a1 - b1 == 0x1_0000_0000_0000_0000 * (yb - ya));
    assert(yb - ya == 0);
    assert(a2 - b2 == 0x1_0000_0000_0000_0000 * (b3 - a3));
    assert(b3 - a3 == 0);
}

/// Calls `Fp256::add` of `snarkvm_fields` on the two elements, through
/// `PrimeField::from_bigint` and `PrimeField::to_bigint`. The contract claims
/// that the canonical residue of the result is the sum of the residues,
/// reduced by the field's order.
#[verifier::external_body]
fn fr_add(a: &Field, b: &Field) -> (r: Field)
    requires
        a.canonical(),
        b.canonical(),
    ensures
        r.canonical(),
        r@ == (a@ + b@) % modulus(),
{
    let x = Fr::from_bigint(BigInteger256([a.l0, a.l1, a.l2, a.l3])).unwrap();
    let y = Fr::from_bigint(BigInteger256([b.l0, b.l1, b.l2, b.l3])).unwrap();
    let s = (x + y).to_bigint().0;
    Field { l0: s[0], l1: s[1], l2: s[2], l3: s[3] }
}

/// Calls `Fp256::mul` of `snarkvm_fields` on the two elements, through
/// `PrimeField::from_bigint` and `PrimeField::to_bigint`. The contract claims
/// that the canonical residue of the result is the product of the residues,
/// reduced by the field's order.
#[verifier::external_body]
fn fr_mul(a: &Field, b: &Field) -> (r: Field)
    requires
        a.canonical(),
        b.canonical(),
    ensures
        r.canonical(),
        r@ == (a@ * b@) % modulus(),
{
    let x = Fr::from_bigint(BigInteger256([a.l0, a.l1, a.l2, a.l3])).unwrap();
    let y = Fr::from_bigint(BigInteger256([b.l0, b.l1, b.l2, b.l3])).unwrap();
    let s = (x * y).to_bigint().0;
    Field { l0: s[0], l1: s[1], l2: s[2], l3: s[3] }
}

/// Calls `Fp256::neg` of `snarkvm_fields` on the element, through
/// `PrimeField::from_bigint` and `PrimeField::to_bigint`. The contract claims
/// that the canonical residue of the result is the order less the residue,
/// and zero for zero.
#[verifier::external_body]
fn fr_neg(a: &Field) -> (r: Field)
    requires
        a.canonical(),
    ensures
        r.canonical(),
        r@ == (modulus() - a@) % (modulus() as int),
{
    let x = Fr::from_bigint(BigInteger256([a.l0, a.l1, a.l2, a.l3])).unwrap();
    let s = (-x).to_bigint().0;
    Field { l0: s[0], l1: s[1], l2: s[2], l3: s[3] }
}

} // verus!
