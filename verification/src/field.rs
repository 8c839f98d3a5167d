//! Scalars: elements of a prime field.
//!
//! A scalar is modelled by its canonical representative, a natural number
//! below the field's modulus. Contracts are stated over that number.

use vstd::arithmetic::div_mod::{lemma_add_mod_noop, lemma_small_mod};
use vstd::arithmetic::mul::lemma_mul_is_distributive_add;
use vstd::prelude::*;

verus! {

/// The residue of `a + b` modulo `q`.
pub open spec fn add_mod(a: nat, b: nat, q: nat) -> nat {
    (a + b) % q
}

/// The residue of `a - b` modulo `q`, in `0..q`.
pub open spec fn sub_mod(a: nat, b: nat, q: nat) -> nat {
    ((a as int - b as int) % (q as int)) as nat
}

/// The residue of `a * b` modulo `q`.
pub open spec fn mul_mod(a: nat, b: nat, q: nat) -> nat {
    (a * b) % q
}

/// An element of a prime field of more than 2^64 elements.
///
/// Values are immutable: every operation returns a fresh scalar.
pub trait FieldScalar: Sized {
    /// The number of elements of the field.
    spec fn modulus() -> nat;

    /// The canonical representative of this scalar.
    spec fn value(&self) -> nat;

    /// Every `u64` is below the modulus, so `from_u64` loses nothing.
    proof fn modulus_exceeds_u64()
        ensures
            Self::modulus() > u64::MAX,
    ;

    /// The additive identity.
    fn zero() -> (r: Self)
        ensures
            r.value() == 0,
    ;

    /// The multiplicative identity.
    fn one() -> (r: Self)
        ensures
            r.value() == 1,
    ;

    /// The scalar that stands for the integer `v`.
    fn from_u64(v: u64) -> (r: Self)
        ensures
            r.value() == v,
    ;

    /// Field addition.
    fn plus(&self, rhs: &Self) -> (r: Self)
        ensures
            r.value() == add_mod(self.value(), rhs.value(), Self::modulus()),
    ;

    /// Field subtraction.
    fn minus(&self, rhs: &Self) -> (r: Self)
        ensures
            r.value() == sub_mod(self.value(), rhs.value(), Self::modulus()),
    ;

    /// Field multiplication.
    fn times(&self, rhs: &Self) -> (r: Self)
        ensures
            r.value() == mul_mod(self.value(), rhs.value(), Self::modulus()),
    ;

    /// Whether two scalars are the same field element.
    fn equals(&self, rhs: &Self) -> (same: bool)
        ensures
            same == (self.value() == rhs.value()),
    ;
}

/// The value of `zero() - one()`: the additive inverse of one.
pub open spec fn minus_one<S: FieldScalar>() -> nat {
    (S::modulus() - 1) as nat
}

/// Adding `step` once more to the residue of `step * n` gives the residue of
/// `step * (n + 1)`: repeated addition from zero stays on the multiples of
/// `step`.
pub proof fn lemma_repeated_addition_step(step: nat, n: nat, q: nat)
    requires
        step < q,
    ensures
        add_mod((step * n) % q, step, q) == (step * (n + 1)) % q,
{
    let m = q as int;
    let sn = (step * n) as int;
    lemma_small_mod(step, q);
    lemma_add_mod_noop(sn, step as int, m);
    lemma_small_mod(((step * n) % q) as nat, q);
    lemma_mul_is_distributive_add(step as int, n as int, 1);
}

/// In every scalar field, `zero + one + one` is the scalar made from 2.
pub proof fn lemma_zero_one_one_is_two<S: FieldScalar>()
    ensures
        add_mod(add_mod(0, 1, S::modulus()), 1, S::modulus()) == 2,
{
    S::modulus_exceeds_u64();
    lemma_small_mod(1, S::modulus());
    lemma_small_mod(2, S::modulus());
}

/// In every scalar field, `zero - one` is the additive inverse of one: its
/// value is the modulus less one, and adding one to it gives zero.
pub proof fn lemma_minus_one_is_inverse_of_one<S: FieldScalar>()
    ensures
        sub_mod(0, 1, S::modulus()) == minus_one::<S>(),
        add_mod(minus_one::<S>(), 1, S::modulus()) == 0,
{
    S::modulus_exceeds_u64();
    let q = S::modulus() as int;
    assert((0 - 1) % q == q - 1) by {
        vstd::arithmetic::div_mod::lemma_mod_add_multiples_vanish(-1, q);
        lemma_small_mod((q - 1) as nat, q as nat);
    }
    assert(((q - 1) + 1) % q == 0) by {
        vstd::arithmetic::div_mod::lemma_mod_self_0(q);
    }
}

} // verus!
