//! Timing lines, whole runs, and the order of the groups.

use group_bench::battery::{Battery, BenchError, Outcome};
use group_bench::curves::ed25519::Ed25519Point;
use group_bench::curves::pallas::PallasPoint;
use group_bench::curves::ristretto::RistrettoElement;
use group_bench::curves::secp256k1::Secp256k1Point;
use group_bench::curves::vesta::VestaPoint;
use group_bench::driver::{bench_curve, Curve, CurveReport};
use group_bench::field::FieldScalar;
use group_bench::group::GroupElement;
use group_bench::runner::{bench, mark, Measurement, Report};
use group_bench::timing::{append_decimal, render_decimal, Timing};

const LABELS: [&str; 7] = [
    "scalar_add",
    "scalar_mul",
    "point_dbl",
    "point_add",
    "point_mul",
    "point_ser",
    "point_deser",
];

#[test]
fn decimal_numerals() {
    assert_eq!(render_decimal(0), "0");
    assert_eq!(render_decimal(7), "7");
    assert_eq!(render_decimal(9), "9");
    assert_eq!(render_decimal(10), "10");
    assert_eq!(render_decimal(99), "99");
    assert_eq!(render_decimal(100), "100");
    assert_eq!(render_decimal(1_234_567_890), "1234567890");
    assert_eq!(render_decimal(10_203_040_506_070_809), "10203040506070809");
    assert_eq!(render_decimal(u128::MAX), "340282366920938463463374607431768211455");
}

#[test]
fn decimal_numerals_are_appended() {
    let mut s = String::from("took ");
    append_decimal(&mut s, 4096);
    assert_eq!(s, "took 4096");
    append_decimal(&mut s, 0);
    assert_eq!(s, "took 40960");
}

#[test]
fn timing_lines() {
    assert_eq!(Timing { battery: Battery::ScalarAdd, millis: 0 }.line(), "scalar_add: 0ms");
    assert_eq!(Timing { battery: Battery::ScalarMul, millis: 5 }.line(), "scalar_mul: 5ms");
    assert_eq!(Timing { battery: Battery::PointDbl, millis: 10 }.line(), "point_dbl: 10ms");
    assert_eq!(Timing { battery: Battery::PointAdd, millis: 1234 }.line(), "point_add: 1234ms");
    assert_eq!(Timing { battery: Battery::PointMul, millis: 60_001 }.line(), "point_mul: 60001ms");
    assert_eq!(Timing { battery: Battery::PointSer, millis: 999 }.line(), "point_ser: 999ms");
    assert_eq!(
        Timing { battery: Battery::PointDeser, millis: u128::MAX }.line(),
        "point_deser: 340282366920938463463374607431768211455ms"
    );
}

#[test]
fn report_lines_follow_the_timings() {
    let report: Report<PallasPoint> = Report {
        measurements: vec![
            Measurement {
                timing: Timing { battery: Battery::ScalarAdd, millis: 12 },
                outcome: Outcome::Point(PallasPoint::generator()),
            },
            Measurement {
                timing: Timing { battery: Battery::PointSer, millis: 0 },
                outcome: Outcome::Encoding(None),
            },
        ],
        failure: Some(BenchError::InvalidEncoding),
    };
    assert!(!report.completed());
    assert_eq!(report.lines(), vec!["scalar_add: 12ms".to_string(), "point_ser: 0ms".to_string()]);
    let empty: Report<PallasPoint> = Report { measurements: Vec::new(), failure: None };
    assert!(empty.completed());
    assert!(empty.lines().is_empty());
}

fn is_a_timing_line(line: &str, label: &str) -> bool {
    let rest = match line.strip_prefix(label) {
        Some(rest) => rest,
        None => return false,
    };
    let rest = match rest.strip_prefix(": ") {
        Some(rest) => rest,
        None => return false,
    };
    let digits = match rest.strip_suffix("ms") {
        Some(digits) => digits,
        None => return false,
    };
    !digits.is_empty()
        && digits.chars().all(|c| c.is_ascii_digit())
        && (digits == "0" || !digits.starts_with('0'))
}

fn check_lines(lines: &[String]) {
    assert_eq!(lines.len(), 7);
    for i in 0..7 {
        assert!(is_a_timing_line(&lines[i], LABELS[i]), "unexpected line {:?}", lines[i]);
    }
}

fn scalar_of<G: GroupElement>(outcome: &Outcome<G>) -> &G::Scalar {
    match outcome {
        Outcome::Scalar(s) => s,
        _ => panic!("a scalar battery leaves a scalar"),
    }
}

fn point_of<G: GroupElement>(outcome: &Outcome<G>) -> &G {
    match outcome {
        Outcome::Point(p) => p,
        _ => panic!("a point battery leaves a point"),
    }
}

fn one_run_gives_seven_lines<G: GroupElement>()
where
    G::Encoding: PartialEq,
{
    let report = bench::<G>(1);
    assert!(report.completed());
    assert_eq!(report.failure, None);
    assert_eq!(report.measurements.len(), 7);
    let lines = report.lines();
    check_lines(&lines);
    for i in 0..7 {
        assert_eq!(report.measurements[i].timing.battery, Battery::all()[i]);
        assert_eq!(lines[i], report.measurements[i].timing.line());
    }

    let g = G::generator();
    let two_hundred = G::Scalar::from_u64(200);
    assert!(scalar_of(&report.measurements[0].outcome).equals(&two_hundred));
    assert!(scalar_of(&report.measurements[1].outcome).equals(&two_hundred));
    let two_to_the_fifty = G::Scalar::from_u64(1 << 50);
    let two_to_the_hundred = two_to_the_fifty.times(&two_to_the_fifty);
    assert!(point_of(&report.measurements[2].outcome).equals(&g.scale(&two_to_the_hundred)));
    assert!(point_of(&report.measurements[3].outcome).equals(&g.scale(&G::Scalar::from_u64(100))));
    assert!(point_of(&report.measurements[4].outcome).plus(&g).equals(&G::identity()));
    match &report.measurements[5].outcome {
        Outcome::Encoding(Some(e)) => assert!(*e == g.to_bytes()),
        _ => panic!("the serialisation battery leaves an encoding"),
    }
    match &report.measurements[6].outcome {
        Outcome::Decoded(Some(p)) => assert!(p.equals(&g)),
        _ => panic!("the deserialisation battery leaves an element"),
    }
}

fn no_run_gives_seven_lines_still<G: GroupElement>() {
    let report = bench::<G>(0);
    assert!(report.completed());
    check_lines(&report.lines());
    let g = G::generator();
    assert!(scalar_of(&report.measurements[0].outcome).equals(&G::Scalar::zero()));
    assert!(scalar_of(&report.measurements[1].outcome).equals(&G::Scalar::zero()));
    assert!(point_of(&report.measurements[2].outcome).equals(&g));
    assert!(point_of(&report.measurements[3].outcome).equals(&G::identity()));
    assert!(point_of(&report.measurements[4].outcome).equals(&g));
    assert!(matches!(report.measurements[5].outcome, Outcome::Encoding(None)));
    assert!(matches!(report.measurements[6].outcome, Outcome::Decoded(None)));
}

#[test]
fn ed25519_one_run_gives_seven_lines() {
    one_run_gives_seven_lines::<Ed25519Point>();
    no_run_gives_seven_lines_still::<Ed25519Point>();
}

#[test]
fn ristretto_one_run_gives_seven_lines() {
    one_run_gives_seven_lines::<RistrettoElement>();
    no_run_gives_seven_lines_still::<RistrettoElement>();
}

#[test]
fn pallas_one_run_gives_seven_lines() {
    one_run_gives_seven_lines::<PallasPoint>();
    no_run_gives_seven_lines_still::<PallasPoint>();
}

#[test]
fn vesta_one_run_gives_seven_lines() {
    one_run_gives_seven_lines::<VestaPoint>();
    no_run_gives_seven_lines_still::<VestaPoint>();
}

#[test]
fn secp256k1_one_run_gives_seven_lines() {
    one_run_gives_seven_lines::<Secp256k1Point>();
    no_run_gives_seven_lines_still::<Secp256k1Point>();
}

#[test]
fn a_timing_scope_reports_its_battery() {
    for battery in Battery::all() {
        match mark::<PallasPoint>(battery, 1) {
            Ok(measurement) => assert_eq!(measurement.timing.battery, battery),
            Err(_) => panic!("every battery completes on Pallas"),
        }
    }
    match mark::<VestaPoint>(Battery::PointAdd, 1) {
        Ok(measurement) => {
            let hundred = <VestaPoint as GroupElement>::Scalar::from_u64(100);
            assert!(point_of(&measurement.outcome).equals(&VestaPoint::generator().scale(&hundred)));
        },
        Err(_) => panic!("addition cannot fail"),
    }
}

#[test]
fn groups_come_in_their_fixed_order() {
    assert_eq!(
        Curve::all(),
        [Curve::Ed25519, Curve::Ristretto, Curve::Pallas, Curve::Vesta, Curve::Secp256k1]
    );
}

#[test]
fn groups_have_their_names_and_headings() {
    assert_eq!(Curve::Ed25519.name(), "Ed25519");
    assert_eq!(Curve::Ristretto.name(), "Ristretto");
    assert_eq!(Curve::Pallas.name(), "Pallas");
    assert_eq!(Curve::Vesta.name(), "Vesta");
    assert_eq!(Curve::Secp256k1.name(), "secp256k1");
    assert_eq!(
        Curve::Ed25519.heading(),
        "Ed25519. Point doubling is implemented via addition. deser will check if it's prime order and accordingly be significantly slower."
    );
    assert_eq!(Curve::Ristretto.heading(), "\r\nRistretto");
    assert_eq!(Curve::Pallas.heading(), "\r\nPallas");
    assert_eq!(Curve::Vesta.heading(), "\r\nVesta");
    assert_eq!(Curve::Secp256k1.heading(), "\r\nsecp256k1");
}

#[test]
fn every_group_completes_a_run() {
    for curve in Curve::all() {
        let report = bench_curve(curve, 1);
        assert_eq!(report.curve(), curve);
        assert_eq!(report.failure(), None);
        check_lines(&report.lines());
    }
}

#[test]
fn a_curve_report_reads_through_to_its_run() {
    let report = CurveReport::Secp256k1(Report {
        measurements: vec![Measurement {
            timing: Timing { battery: Battery::PointMul, millis: 77 },
            outcome: Outcome::Point(Secp256k1Point::identity()),
        }],
        failure: Some(BenchError::InvalidEncoding),
    });
    assert_eq!(report.curve(), Curve::Secp256k1);
    assert_eq!(report.failure(), Some(BenchError::InvalidEncoding));
    assert_eq!(report.lines(), vec!["point_mul: 77ms".to_string()]);
}
