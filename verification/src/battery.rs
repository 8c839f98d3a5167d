//! The battery: seven timed micro-operations, in a fixed order.
//!
//! Each battery item is a loop over one operation of a group or of its scalar
//! field. The value that a loop leaves behind is handed to an opaque sink so
//! that an optimising compiler must carry the loop out, and is then returned,
//! so that its contract can say what the loop computed.

use crate::field::{lemma_minus_one_is_inverse_of_one, lemma_repeated_addition_step, minus_one};
use crate::field::FieldScalar;
use crate::group::{added_times, doubled_times, scaled_times, GroupElement};
use vstd::arithmetic::div_mod::lemma_small_mod;
use vstd::prelude::*;

verus! {

/// The base iteration count of a full run.
pub const RUNS: u32 = 100_000;

/// How many iterations of a cheap operation make up one run.
pub const CHEAP_FACTOR: u64 = 100;

/// `std::hint::black_box`, the opaque sink. Its documentation calls it an
/// identity function; that it returns its argument unchanged is all that is
/// stated of it.
pub assume_specification<T>[ core::hint::black_box::<T> ](dummy: T) -> (r: T)
    ensures
        r == dummy,
;

/// One item of the battery.
#[derive(Clone, Copy, Debug, PartialEq, Eq, Structural)]
pub enum Battery {
    /// Repeated scalar addition.
    ScalarAdd,
    /// Labelled as scalar multiplication; see [`scalar_mul`].
    ScalarMul,
    /// Repeated point doubling.
    PointDbl,
    /// Repeated point addition.
    PointAdd,
    /// Repeated scalar-point multiplication.
    PointMul,
    /// Repeated serialisation of the generator.
    PointSer,
    /// Repeated deserialisation of the generator's encoding.
    PointDeser,
}

/// Why a battery did not complete.
#[derive(Clone, Copy, Debug, PartialEq, Eq, Structural)]
pub enum BenchError {
    /// A byte string that had to decode to a group element was rejected.
    InvalidEncoding,
}

impl Battery {
    /// The batteries in the order in which they are run.
    pub open spec fn order() -> Seq<Battery> {
        seq![
            Battery::ScalarAdd,
            Battery::ScalarMul,
            Battery::PointDbl,
            Battery::PointAdd,
            Battery::PointMul,
            Battery::PointSer,
            Battery::PointDeser,
        ]
    }

    /// The label under which a battery is reported.
    pub open spec fn label_spec(self) -> Seq<char> {
        match self {
            Battery::ScalarAdd => "scalar_add"@,
            Battery::ScalarMul => "scalar_mul"@,
            Battery::PointDbl => "point_dbl"@,
            Battery::PointAdd => "point_add"@,
            Battery::PointMul => "point_mul"@,
            Battery::PointSer => "point_ser"@,
            Battery::PointDeser => "point_deser"@,
        }
    }

    /// Whether the battery times an operation cheap enough to be repeated a
    /// hundred times per run.
    pub open spec fn is_cheap(self) -> bool {
        self == Battery::ScalarAdd || self == Battery::ScalarMul || self == Battery::PointDbl
            || self == Battery::PointAdd
    }

    /// The number of iterations of a battery for a base count of `runs`.
    pub open spec fn iterations_spec(self, runs: u32) -> nat {
        if self.is_cheap() {
            (runs * CHEAP_FACTOR) as nat
        } else {
            runs as nat
        }
    }

    /// The batteries in the order in which they are run.
    pub fn all() -> (list: [Battery; 7])
        ensures
            list@ == Battery::order(),
    {
        [
            Battery::ScalarAdd,
            Battery::ScalarMul,
            Battery::PointDbl,
            Battery::PointAdd,
            Battery::PointMul,
            Battery::PointSer,
            Battery::PointDeser,
        ]
    }

    /// The label under which this battery is reported.
    pub fn label(&self) -> (s: &'static str)
        ensures
            s@ == self.label_spec(),
    {
        match self {
            Battery::ScalarAdd => "scalar_add",
            Battery::ScalarMul => "scalar_mul",
            Battery::PointDbl => "point_dbl",
            Battery::PointAdd => "point_add",
            Battery::PointMul => "point_mul",
            Battery::PointSer => "point_ser",
            Battery::PointDeser => "point_deser",
        }
    }

    /// The number of iterations of this battery for a base count of `runs`:
    /// a hundred times `runs` for the four cheap operations, `runs` itself
    /// for scalar-point multiplication, serialisation and deserialisation.
    pub fn iterations(&self, runs: u32) -> (n: u64)
        ensures
            n == self.iterations_spec(runs),
    {
        match self {
            Battery::ScalarAdd | Battery::ScalarMul | Battery::PointDbl | Battery::PointAdd => {
                runs as u64 * CHEAP_FACTOR
            },
            Battery::PointMul | Battery::PointSer | Battery::PointDeser => runs as u64,
        }
    }
}

/// What repeated scalar addition leaves behind: starting from zero and
/// adding 2 `n` times gives twice `n`, reduced modulo the field's order.
pub open spec fn is_sum_of_twos<S: FieldScalar>(sum: S, n: nat) -> bool {
    sum.value() == (2 * n) % S::modulus()
}

/// What the doubling battery leaves behind: the generator, doubled `n` times.
pub open spec fn is_doubled_generator<G: GroupElement>(acc: G, n: nat) -> bool {
    acc.encoding() == doubled_times::<G>(G::generator_encoding(), n)
}

/// What the addition battery leaves behind: the neutral element with the
/// generator added to it `n` times.
pub open spec fn is_summed_generator<G: GroupElement>(acc: G, n: nat) -> bool {
    acc.encoding() == added_times::<G>(G::identity_encoding(), G::generator_encoding(), n)
}

/// What the multiplication battery leaves behind: the generator, multiplied
/// `n` times over by the additive inverse of one.
pub open spec fn is_negated_generator<G: GroupElement>(acc: G, n: nat) -> bool {
    acc.encoding() == scaled_times::<G>(G::generator_encoding(), minus_one::<G::Scalar>(), n)
}

/// What the serialisation battery leaves behind: the encoding of the
/// generator, if there was an iteration.
pub open spec fn is_generator_encoding<G: GroupElement>(last: Option<G::Encoding>, n: nat) -> bool {
    &&& last is Some <==> n > 0
    &&& last matches Some(e) ==> G::bytes_of(&e) == G::generator_encoding()
}

/// What repeated deserialisation of the bytes `bytes` leaves behind where it
/// succeeds: the element that the bytes decode to, if there was an
/// iteration. With an iteration, success implies that the bytes decode.
pub open spec fn is_decoded<G: GroupElement>(last: Option<G>, bytes: Seq<u8>, n: nat) -> bool {
    &&& n > 0 ==> G::decoded(bytes) is Some
    &&& last is Some <==> n > 0
    &&& last matches Some(p) ==> G::decoded(bytes) == Some(p.encoding())
}

/// Adds the scalar 2 to an accumulator that starts at zero, `iterations`
/// times, and returns the accumulator.
fn accumulate_twos<S: FieldScalar>(iterations: u64) -> (sum: S)
    ensures
        is_sum_of_twos(sum, iterations as nat),
{
    let two = S::from_u64(2);
    let mut sum = S::zero();
    let mut i: u64 = 0;
    proof {
        S::modulus_exceeds_u64();
        lemma_small_mod(0, S::modulus());
    }
    while i < iterations
        invariant
            i <= iterations,
            two.value() == 2,
            S::modulus() > u64::MAX,
            is_sum_of_twos(sum, i as nat),
        decreases iterations - i,
    {
        proof {
            lemma_repeated_addition_step(2, i as nat, S::modulus());
        }
        sum = sum.plus(&two);
        i = i + 1;
    }
    core::hint::black_box(sum)
}

/// The `scalar_add` battery: starting from zero, adds the scalar 2
/// `iterations` times. The sum is twice the iteration count, reduced.
pub fn scalar_add<S: FieldScalar>(iterations: u64) -> (sum: S)
    ensures
        is_sum_of_twos(sum, iterations as nat),
{
    accumulate_twos::<S>(iterations)
}

/// The `scalar_mul` battery.
///
/// Despite its label this battery times scalar addition: it runs the very
/// loop of [`scalar_add`], and no multiplication takes place. Whether a
/// multiplication loop was meant is an open question. The measured
/// operation is kept as it is, so that figures stay comparable between
/// runs; anyone who wants multiplication timed should add a battery rather
/// than change this one.
pub fn scalar_mul<S: FieldScalar>(iterations: u64) -> (sum: S)
    ensures
        is_sum_of_twos(sum, iterations as nat),
{
    accumulate_twos::<S>(iterations)
}

/// The `point_dbl` battery: starting from the generator, doubles the
/// accumulator `iterations` times.
pub fn point_dbl<G: GroupElement>(iterations: u64) -> (acc: G)
    ensures
        is_doubled_generator(acc, iterations as nat),
{
    let mut acc = G::generator();
    let mut i: u64 = 0;
    while i < iterations
        invariant
            i <= iterations,
            is_doubled_generator(acc, i as nat),
        decreases iterations - i,
    {
        acc = acc.double();
        i = i + 1;
    }
    core::hint::black_box(acc)
}

/// The `point_add` battery: starting from the neutral element, adds the
/// generator to the accumulator `iterations` times.
pub fn point_add<G: GroupElement>(iterations: u64) -> (acc: G)
    ensures
        is_summed_generator(acc, iterations as nat),
{
    let mut acc = G::identity();
    let mut i: u64 = 0;
    while i < iterations
        invariant
            i <= iterations,
            is_summed_generator(acc, i as nat),
        decreases iterations - i,
    {
        acc = acc.plus(&G::generator());
        i = i + 1;
    }
    core::hint::black_box(acc)
}

/// The `point_mul` battery: starting from the generator, multiplies the
/// accumulator by the scalar `zero - one`, the additive inverse of one,
/// `iterations` times.
pub fn point_mul<G: GroupElement>(iterations: u64) -> (acc: G)
    ensures
        is_negated_generator(acc, iterations as nat),
{
    let scalar = G::Scalar::zero().minus(&G::Scalar::one());
    proof {
        lemma_minus_one_is_inverse_of_one::<G::Scalar>();
    }
    let mut acc = G::generator();
    let mut i: u64 = 0;
    while i < iterations
        invariant
            i <= iterations,
            scalar.value() == minus_one::<G::Scalar>(),
            is_negated_generator(acc, i as nat),
        decreases iterations - i,
    {
        acc = acc.scale(&scalar);
        i = i + 1;
    }
    core::hint::black_box(acc)
}

/// The `point_ser` battery: serialises the generator `iterations` times and
/// returns the last encoding, if there was an iteration.
pub fn point_ser<G: GroupElement>(iterations: u64) -> (last: Option<G::Encoding>)
    ensures
        is_generator_encoding::<G>(last, iterations as nat),
{
    let mut last: Option<G::Encoding> = None;
    let mut i: u64 = 0;
    while i < iterations
        invariant
            i <= iterations,
            is_generator_encoding::<G>(last, i as nat),
        decreases iterations - i,
    {
        last = Some(core::hint::black_box(G::generator().to_bytes()));
        i = i + 1;
    }
    last
}

/// What one decoding attempt amounts to: the element, or the error that
/// ends the battery.
pub fn require_decoded<G: GroupElement>(decoded: Option<G>) -> (r: Result<G, BenchError>)
    ensures
        match r {
            Ok(p) => decoded == Some(p),
            Err(e) => decoded is None && e == BenchError::InvalidEncoding,
        },
{
    match decoded {
        Some(p) => Ok(p),
        None => Err(BenchError::InvalidEncoding),
    }
}

/// Deserialises `encoding` `iterations` times and returns the last element
/// decoded, if there was an iteration. Stops with an error at the first
/// attempt that is rejected; with no iteration nothing is attempted.
pub fn deserialize_repeatedly<G: GroupElement>(encoding: &G::Encoding, iterations: u64) -> (r:
    Result<Option<G>, BenchError>)
    ensures
        match r {
            Ok(last) => is_decoded(last, G::bytes_of(encoding), iterations as nat),
            Err(e) => {
                &&& e == BenchError::InvalidEncoding
                &&& iterations > 0
                &&& G::decoded(G::bytes_of(encoding)) is None
            },
        },
{
    let mut last: Option<G> = None;
    let mut i: u64 = 0;
    while i < iterations
        invariant
            i <= iterations,
            is_decoded(last, G::bytes_of(encoding), i as nat),
        decreases iterations - i,
    {
        match require_decoded(core::hint::black_box(G::from_bytes(encoding))) {
            Ok(p) => {
                last = Some(p);
            },
            Err(e) => {
                return Err(e);
            },
        }
        i = i + 1;
    }
    Ok(last)
}

/// Whether the encoding of the generator decodes.
pub open spec fn generator_decodes<G: GroupElement>() -> bool {
    G::decoded(G::generator_encoding()) is Some
}

/// The `point_deser` battery: serialises the generator once, then
/// deserialises that encoding `iterations` times. Every attempt has to
/// succeed; the battery fails at the first that does not.
pub fn point_deser<G: GroupElement>(iterations: u64) -> (r: Result<Option<G>, BenchError>)
    ensures
        match r {
            Ok(last) => is_decoded(last, G::generator_encoding(), iterations as nat),
            Err(e) => {
                &&& e == BenchError::InvalidEncoding
                &&& iterations > 0
                &&& !generator_decodes::<G>()
            },
        },
{
    let encoding = G::generator().to_bytes();
    deserialize_repeatedly::<G>(&encoding, iterations)
}

/// Whether `battery` fails over the group `G` for a base count of `runs`.
/// Only deserialisation can fail, and only where the group rejects the
/// encoding of its own generator.
pub open spec fn battery_fails<G: GroupElement>(battery: Battery, runs: u32) -> bool {
    battery == Battery::PointDeser && runs > 0 && !generator_decodes::<G>()
}

/// What a battery leaves behind once it has completed.
pub enum Outcome<G: GroupElement> {
    /// The accumulator of a scalar battery.
    Scalar(G::Scalar),
    /// The accumulator of a point battery.
    Point(G),
    /// The last encoding that the serialisation battery produced.
    Encoding(Option<G::Encoding>),
    /// The last element that the deserialisation battery decoded.
    Decoded(Option<G>),
}

/// Whether `outcome` is what `battery` leaves behind over the group `G` for
/// a base count of `runs`.
pub open spec fn is_outcome_of<G: GroupElement>(
    outcome: Outcome<G>,
    battery: Battery,
    runs: u32,
) -> bool {
    let n = battery.iterations_spec(runs);
    match battery {
        Battery::ScalarAdd | Battery::ScalarMul => {
            outcome matches Outcome::Scalar(sum) && is_sum_of_twos(sum, n)
        },
        Battery::PointDbl => outcome matches Outcome::Point(acc) && is_doubled_generator(acc, n),
        Battery::PointAdd => outcome matches Outcome::Point(acc) && is_summed_generator(acc, n),
        Battery::PointMul => outcome matches Outcome::Point(acc) && is_negated_generator(acc, n),
        Battery::PointSer => {
            outcome matches Outcome::Encoding(last) && is_generator_encoding::<G>(last, n)
        },
        Battery::PointDeser => {
            outcome matches Outcome::Decoded(last) && is_decoded(
                last,
                G::generator_encoding(),
                n,
            )
        },
    }
}

/// Runs one battery over the group `G`, with the iteration count that
/// belongs to it for a base count of `runs`, and hands back what the
/// battery left behind.
pub fn run_battery<G: GroupElement>(battery: Battery, runs: u32) -> (r: Result<
    Outcome<G>,
    BenchError,
>)
    ensures
        r is Err <==> battery_fails::<G>(battery, runs),
        r matches Ok(outcome) ==> is_outcome_of(outcome, battery, runs),
        r matches Err(e) ==> e == BenchError::InvalidEncoding,
{
    let iterations = battery.iterations(runs);
    match battery {
        Battery::ScalarAdd => Ok(Outcome::Scalar(scalar_add::<G::Scalar>(iterations))),
        Battery::ScalarMul => Ok(Outcome::Scalar(scalar_mul::<G::Scalar>(iterations))),
        Battery::PointDbl => Ok(Outcome::Point(point_dbl::<G>(iterations))),
        Battery::PointAdd => Ok(Outcome::Point(point_add::<G>(iterations))),
        Battery::PointMul => Ok(Outcome::Point(point_mul::<G>(iterations))),
        Battery::PointSer => Ok(Outcome::Encoding(point_ser::<G>(iterations))),
        Battery::PointDeser => {
            match point_deser::<G>(iterations) {
                Ok(last) => Ok(Outcome::Decoded(last)),
                Err(e) => Err(e),
            }
        },
    }
}

} // verus!
