//! The driver: the five groups, in the fixed order in which they are run.

use crate::battery::BenchError;
use crate::curves::ed25519::Ed25519Point;
use crate::curves::pallas::PallasPoint;
use crate::curves::ristretto::RistrettoElement;
use crate::curves::secp256k1::Secp256k1Point;
use crate::curves::vesta::VestaPoint;
use crate::runner::{bench, Measurement, Report};
use vstd::prelude::*;

verus! {

/// One of the groups that the harness is run over.
#[derive(Clone, Copy, Debug, PartialEq, Eq, Structural)]
pub enum Curve {
    /// The prime-order subgroup of Ed25519.
    Ed25519,
    /// The Ristretto group over Curve25519.
    Ristretto,
    /// The Pallas curve.
    Pallas,
    /// The Vesta curve.
    Vesta,
    /// The secp256k1 curve.
    Secp256k1,
}

impl Curve {
    /// The groups in the order in which they are run.
    pub open spec fn order() -> Seq<Curve> {
        seq![Curve::Ed25519, Curve::Ristretto, Curve::Pallas, Curve::Vesta, Curve::Secp256k1]
    }

    /// The name of a group.
    pub open spec fn name_spec(self) -> Seq<char> {
        match self {
            Curve::Ed25519 => "Ed25519"@,
            Curve::Ristretto => "Ristretto"@,
            Curve::Pallas => "Pallas"@,
            Curve::Vesta => "Vesta"@,
            Curve::Secp256k1 => "secp256k1"@,
        }
    }

    /// The heading printed before the figures of a group.
    pub open spec fn heading_spec(self) -> Seq<char> {
        match self {
            Curve::Ed25519 => "Ed25519. Point doubling is implemented via addition. deser will check if it's prime order and accordingly be significantly slower."@,
            Curve::Ristretto => "\r\nRistretto"@,
            Curve::Pallas => "\r\nPallas"@,
            Curve::Vesta => "\r\nVesta"@,
            Curve::Secp256k1 => "\r\nsecp256k1"@,
        }
    }

    /// The groups in the order in which they are run.
    pub fn all() -> (list: [Curve; 5])
        ensures
            list@ == Curve::order(),
    {
        [Curve::Ed25519, Curve::Ristretto, Curve::Pallas, Curve::Vesta, Curve::Secp256k1]
    }

    /// The name of this group.
    pub fn name(&self) -> (s: &'static str)
        ensures
            s@ == self.name_spec(),
    {
        match self {
            Curve::Ed25519 => "Ed25519",
            Curve::Ristretto => "Ristretto",
            Curve::Pallas => "Pallas",
            Curve::Vesta => "Vesta",
            Curve::Secp256k1 => "secp256k1",
        }
    }

    /// The heading to print before the figures of this group.
    ///
    /// The first heading doubles as a note on how to read the figures: for
    /// Ed25519, doubling may be carried out as an addition, and decoding
    /// checks membership of the prime-order subgroup, which makes it much
    /// slower than for the other groups. The later headings start with a
    /// line break, which sets the groups apart in the output.
    pub fn heading(&self) -> (s: &'static str)
        ensures
            s@ == self.heading_spec(),
    {
        match self {
            Curve::Ed25519 => "Ed25519. Point doubling is implemented via addition. deser will check if it's prime order and accordingly be significantly slower.",
            Curve::Ristretto => "\r\nRistretto",
            Curve::Pallas => "\r\nPallas",
            Curve::Vesta => "\r\nVesta",
            Curve::Secp256k1 => "\r\nsecp256k1",
        }
    }
}

/// The report of a run over one of the five groups.
pub enum CurveReport {
    /// A run over Ed25519.
    Ed25519(Report<Ed25519Point>),
    /// A run over Ristretto.
    Ristretto(Report<RistrettoElement>),
    /// A run over Pallas.
    Pallas(Report<PallasPoint>),
    /// A run over Vesta.
    Vesta(Report<VestaPoint>),
    /// A run over secp256k1.
    Secp256k1(Report<Secp256k1Point>),
}

impl CurveReport {
    /// The group that the run was over.
    pub open spec fn curve_spec(&self) -> Curve {
        match self {
            CurveReport::Ed25519(_) => Curve::Ed25519,
            CurveReport::Ristretto(_) => Curve::Ristretto,
            CurveReport::Pallas(_) => Curve::Pallas,
            CurveReport::Vesta(_) => Curve::Vesta,
            CurveReport::Secp256k1(_) => Curve::Secp256k1,
        }
    }

    /// Whether this report is what a run with a base count of `runs` gives.
    pub open spec fn is_run(&self, runs: u32) -> bool {
        match self {
            CurveReport::Ed25519(report) => report.is_run(runs),
            CurveReport::Ristretto(report) => report.is_run(runs),
            CurveReport::Pallas(report) => report.is_run(runs),
            CurveReport::Vesta(report) => report.is_run(runs),
            CurveReport::Secp256k1(report) => report.is_run(runs),
        }
    }

    /// Why the run stopped early, if it did.
    pub open spec fn failure_spec(&self) -> Option<BenchError> {
        match self {
            CurveReport::Ed25519(report) => report.failure,
            CurveReport::Ristretto(report) => report.failure,
            CurveReport::Pallas(report) => report.failure,
            CurveReport::Vesta(report) => report.failure,
            CurveReport::Secp256k1(report) => report.failure,
        }
    }

    /// The lines that report the figures.
    pub open spec fn lines_spec(&self) -> Seq<Seq<char>> {
        match self {
            CurveReport::Ed25519(report) => report.measurements@.map_values(
                |m: Measurement<Ed25519Point>| m.timing.line_spec(),
            ),
            CurveReport::Ristretto(report) => report.measurements@.map_values(
                |m: Measurement<RistrettoElement>| m.timing.line_spec(),
            ),
            CurveReport::Pallas(report) => report.measurements@.map_values(
                |m: Measurement<PallasPoint>| m.timing.line_spec(),
            ),
            CurveReport::Vesta(report) => report.measurements@.map_values(
                |m: Measurement<VestaPoint>| m.timing.line_spec(),
            ),
            CurveReport::Secp256k1(report) => report.measurements@.map_values(
                |m: Measurement<Secp256k1Point>| m.timing.line_spec(),
            ),
        }
    }

    /// The group that the run was over.
    pub fn curve(&self) -> (curve: Curve)
        ensures
            curve == self.curve_spec(),
    {
        match self {
            CurveReport::Ed25519(_) => Curve::Ed25519,
            CurveReport::Ristretto(_) => Curve::Ristretto,
            CurveReport::Pallas(_) => Curve::Pallas,
            CurveReport::Vesta(_) => Curve::Vesta,
            CurveReport::Secp256k1(_) => Curve::Secp256k1,
        }
    }

    /// Why the run stopped early, if it did.
    pub fn failure(&self) -> (failure: Option<BenchError>)
        ensures
            failure == self.failure_spec(),
    {
        match self {
            CurveReport::Ed25519(report) => report.failure,
            CurveReport::Ristretto(report) => report.failure,
            CurveReport::Pallas(report) => report.failure,
            CurveReport::Vesta(report) => report.failure,
            CurveReport::Secp256k1(report) => report.failure,
        }
    }

    /// The lines that report the figures, one per completed battery, in the
    /// order in which the batteries ran.
    pub fn lines(&self) -> (out: Vec<String>)
        ensures
            out.len() == self.lines_spec().len(),
            forall|i: int| 0 <= i < out.len() ==> (#[trigger] out[i])@ == self.lines_spec()[i],
    {
        match self {
            CurveReport::Ed25519(report) => report.lines(),
            CurveReport::Ristretto(report) => report.lines(),
            CurveReport::Pallas(report) => report.lines(),
            CurveReport::Vesta(report) => report.lines(),
            CurveReport::Secp256k1(report) => report.lines(),
        }
    }
}

/// Runs the whole battery over one of the five groups, with `runs` as the
/// base iteration count.
pub fn bench_curve(curve: Curve, runs: u32) -> (report: CurveReport)
    ensures
        report.curve_spec() == curve,
        report.is_run(runs),
{
    match curve {
        Curve::Ed25519 => CurveReport::Ed25519(bench::<Ed25519Point>(runs)),
        Curve::Ristretto => CurveReport::Ristretto(bench::<RistrettoElement>(runs)),
        Curve::Pallas => CurveReport::Pallas(bench::<PallasPoint>(runs)),
        Curve::Vesta => CurveReport::Vesta(bench::<VestaPoint>(runs)),
        Curve::Secp256k1 => CurveReport::Secp256k1(bench::<Secp256k1Point>(runs)),
    }
}

} // verus!
