//! The runner: the whole battery over one group, each item timed.

use crate::battery::{battery_fails, is_outcome_of, run_battery, Battery, BenchError, Outcome};
use crate::group::GroupElement;
use crate::timing::{timing_line, Timing};
use std::time::Instant;
use vstd::prelude::*;

verus! {

#[verifier::external_type_specification]
#[verifier::external_body]
pub struct ExInstant(Instant);

/// `std::time::Instant::now`, the reading of the monotonic clock. Nothing is
/// stated of the instant returned.
pub assume_specification[ Instant::now ]() -> (r: Instant);

/// `std::time::Instant::elapsed`, the time since an instant. Nothing is
/// stated of the duration returned.
pub assume_specification[ Instant::elapsed ](start: &Instant) -> (r: core::time::Duration);

/// `std::time::Duration::as_millis`, the whole milliseconds in a duration.
/// Nothing is stated of the number returned.
pub assume_specification[ core::time::Duration::as_millis ](d: &core::time::Duration) -> (r: u128);

/// One battery that completed: how long it took, and what it left behind.
pub struct Measurement<G: GroupElement> {
    /// The battery and the time it took.
    pub timing: Timing,
    /// What the battery computed while it was timed.
    pub outcome: Outcome<G>,
}

/// What a run of the battery over one group produced.
pub struct Report<G: GroupElement> {
    /// The batteries that completed, in the order in which they ran.
    pub measurements: Vec<Measurement<G>>,
    /// Why the run stopped early, if it did.
    pub failure: Option<BenchError>,
}

/// Whether a run over the group `G` with a base count of `runs` stops early.
pub open spec fn run_fails<G: GroupElement>(runs: u32) -> bool {
    battery_fails::<G>(Battery::PointDeser, runs)
}

impl<G: GroupElement> Report<G> {
    /// Whether this report is what a run with a base count of `runs` gives:
    /// the batteries in their fixed order, each with the outcome that
    /// belongs to it; all seven where the run completes, and the six before
    /// deserialisation where it fails. The times are whatever the clock
    /// said.
    pub open spec fn is_run(&self, runs: u32) -> bool {
        &&& self.failure is Some <==> run_fails::<G>(runs)
        &&& self.failure matches Some(e) ==> e == BenchError::InvalidEncoding
        &&& self.measurements.len() == if self.failure is None {
            7nat
        } else {
            6nat
        }
        &&& forall|i: int|
            0 <= i < self.measurements.len() ==> {
                &&& (#[trigger] self.measurements[i]).timing.battery == Battery::order()[i]
                &&& is_outcome_of(self.measurements[i].outcome, Battery::order()[i], runs)
            }
    }

    /// Whether every battery completed.
    pub fn completed(&self) -> (done: bool)
        ensures
            done == (self.failure is None),
    {
        self.failure.is_none()
    }

    /// The lines that report the figures, one per completed battery, in the
    /// order in which the batteries ran.
    pub fn lines(&self) -> (out: Vec<String>)
        ensures
            out.len() == self.measurements.len(),
            forall|i: int|
                0 <= i < out.len() ==> (#[trigger] out[i])@
                    == self.measurements[i].timing.line_spec(),
    {
        let mut out: Vec<String> = Vec::new();
        let mut i: usize = 0;
        while i < self.measurements.len()
            invariant
                i <= self.measurements.len(),
                out.len() == i,
                forall|j: int|
                    0 <= j < i ==> (#[trigger] out[j])@ == self.measurements[j].timing.line_spec(),
            decreases self.measurements.len() - i,
        {
            out.push(self.measurements[i].timing.line());
            i = i + 1;
        }
        out
    }
}

/// A run that completes reports seven lines, and the line in each place is
/// the timing line of the battery that has that place in the fixed order.
/// A run that fails reports the first six of them.
pub proof fn lemma_run_reports_in_order<G: GroupElement>(report: Report<G>, runs: u32)
    requires
        report.is_run(runs),
    ensures
        report.failure is None ==> report.measurements.len() == 7,
        report.failure is Some ==> report.measurements.len() == 6,
        runs == 0 ==> report.failure is None,
        forall|i: int|
            0 <= i < report.measurements.len() ==> (
            #[trigger] report.measurements[i]).timing.line_spec() == timing_line(
                Battery::order()[i].label_spec(),
                report.measurements[i].timing.millis as nat,
            ),
{
}

/// Runs one battery over the group `G` inside a timing scope: reads the
/// clock, runs the battery, and reads the clock again. Gives the time and
/// the outcome of a battery that completed, and the error of one that did
/// not. The time is whatever the clock said.
pub fn mark<G: GroupElement>(battery: Battery, runs: u32) -> (r: Result<Measurement<G>, BenchError>)
    ensures
        r is Err <==> battery_fails::<G>(battery, runs),
        r matches Ok(m) ==> m.timing.battery == battery && is_outcome_of(m.outcome, battery, runs),
        r matches Err(e) ==> e == BenchError::InvalidEncoding,
{
    let start = Instant::now();
    let result = run_battery::<G>(battery, runs);
    let millis = start.elapsed().as_millis();
    match result {
        Ok(outcome) => Ok(Measurement { timing: Timing { battery, millis }, outcome }),
        Err(e) => Err(e),
    }
}

/// Runs the whole battery over the group `G`: the seven items in their fixed
/// order, each in its timing scope, with `runs` as the base iteration count.
///
/// The run stops at the first battery that fails. That can only be the last
/// one, so a run that fails still reports the six batteries before it.
pub fn bench<G: GroupElement>(runs: u32) -> (report: Report<G>)
    ensures
        report.is_run(runs),
{
    let order = Battery::all();
    let mut measurements: Vec<Measurement<G>> = Vec::new();
    let mut i: usize = 0;
    while i < 7
        invariant
            i <= 7,
            order@ == Battery::order(),
            i == 7 ==> !run_fails::<G>(runs),
            measurements.len() == i,
            forall|j: int|
                0 <= j < i ==> {
                    &&& (#[trigger] measurements[j]).timing.battery == Battery::order()[j]
                    &&& is_outcome_of(measurements[j].outcome, Battery::order()[j], runs)
                },
        decreases 7 - i,
    {
        match mark::<G>(order[i], runs) {
            Ok(measurement) => {
                measurements.push(measurement);
            },
            Err(e) => {
                return Report { measurements, failure: Some(e) };
            },
        }
        i = i + 1;
    }
    Report { measurements, failure: None }
}

} // verus!
