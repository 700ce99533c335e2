//! The benchmark harness: a labelled operation is run a fixed number of
//! times, one run after the other, and each run's duration is kept as a
//! sample together with the output of the last run.
//!
//! The harness decides; a driver runs the operation and measures it.

use vstd::prelude::*;
use crate::statistics::{summarize, Statistics, StatisticsError, fits};

verus! {

/// What the driver of a harness does next.
#[derive(Clone, Copy, Debug, PartialEq, Eq, Structural)]
pub enum HarnessAction {
    /// Run the operation once more and record its duration and output.
    Run,
    /// All runs are done: ask for the result.
    Report,
}

/// Why a harness gave no result.
#[derive(Clone, Copy, Debug, PartialEq, Eq, Structural)]
pub enum HarnessError {
    /// Fewer than one run was asked for.
    NoIterations,
    /// Runs are still owed.
    Incomplete,
    /// The samples are too many or too large for the statistics.
    Overflow,
}

/// What a harness holds: its label, the number of runs asked for, the
/// samples recorded so far and the output of the latest run.
pub struct HarnessState<O> {
    pub label: Seq<char>,
    pub iterations: nat,
    pub samples: Seq<u64>,
    pub last_output: Option<O>,
}

impl<O> HarnessState<O> {
    /// A harness has at least one run to make, never more samples than runs,
    /// and an output exactly when it has a sample.
    pub open spec fn well_formed(self) -> bool {
        &&& self.iterations >= 1
        &&& self.samples.len() <= self.iterations
        &&& self.last_output is Some <==> self.samples.len() > 0
    }

    /// Whether every run has been made.
    pub open spec fn complete(self) -> bool {
        self.samples.len() >= self.iterations
    }

    /// What the driver does next.
    pub open spec fn next_action(self) -> HarnessAction {
        if self.complete() {
            HarnessAction::Report
        } else {
            HarnessAction::Run
        }
    }

    /// The state after one more run. Once every run has been made, a further
    /// run is not counted.
    pub open spec fn record(self, elapsed: u64, output: O) -> HarnessState<O> {
        if self.complete() {
            self
        } else {
            HarnessState {
                samples: self.samples.push(elapsed),
                last_output: Some(output),
                ..self
            }
        }
    }
}

/// The result of a benchmark: the label, the statistics of the samples and
/// the output of the last run.
#[derive(Debug, PartialEq, Eq)]
pub struct BenchmarkResult<O> {
    pub label: String,
    pub statistics: Statistics,
    pub last_output: O,
}

/// A labelled operation on its way through its runs.
#[derive(Debug, PartialEq, Eq)]
pub struct Harness<O> {
    label: String,
    iterations: usize,
    samples: Vec<u64>,
    last_output: Option<O>,
}

impl<O> View for Harness<O> {
    type V = HarnessState<O>;

    closed spec fn view(&self) -> HarnessState<O> {
        HarnessState {
            label: self.label@,
            iterations: self.iterations as nat,
            samples: self.samples@,
            last_output: self.last_output,
        }
    }
}

impl<O> Harness<O> {
    /// Every harness that this module hands out is well formed.
    #[verifier::type_invariant]
    closed spec fn holds_together(&self) -> bool {
        self@.well_formed()
    }

    /// A harness for `iterations` runs of the operation called `label`.
    /// Fewer than one run is refused.
    pub fn new(label: String, iterations: i32) -> (result: Result<Harness<O>, HarnessError>)
        ensures
            iterations < 1 <==> result == Err::<Harness<O>, HarnessError>(
                HarnessError::NoIterations,
            ),
            iterations >= 1 ==> result is Ok && result.unwrap()@ == (HarnessState::<O> {
                label: label@,
                iterations: iterations as nat,
                samples: Seq::empty(),
                last_output: None,
            }) && result.unwrap()@.well_formed(),
    {
        if iterations < 1 {
            return Err(HarnessError::NoIterations);
        }
        let harness = Harness {
            label,
            iterations: iterations as usize,
            samples: Vec::new(),
            last_output: None,
        };
        Ok(harness)
    }

    /// What the driver does next: another run, or the report.
    pub fn next_action(&self) -> (action: HarnessAction)
        ensures
            action == self@.next_action(),
            self@.well_formed(),
    {
        proof {
            use_type_invariant(self);
        }
        if self.samples.len() >= self.iterations {
            HarnessAction::Report
        } else {
            HarnessAction::Run
        }
    }

    /// Records one run, its duration in nanoseconds and its output, and hands
    /// the harness back.
    pub fn record(self, elapsed: u64, output: O) -> (next: Harness<O>)
        ensures
            next@ == self@.record(elapsed, output),
            next@.well_formed(),
    {
        proof {
            use_type_invariant(&self);
        }
        if self.samples.len() < self.iterations {
            let mut samples = self.samples;
            samples.push(elapsed);
            Harness {
                label: self.label,
                iterations: self.iterations,
                samples,
                last_output: Some(output),
            }
        } else {
            self
        }
    }

    /// How many runs have been recorded.
    pub fn completed(&self) -> (count: usize)
        ensures
            count == self@.samples.len(),
    {
        self.samples.len()
    }

    /// The result, once every run has been made: the label, the statistics of
    /// all samples and the output of the last run.
    ///
    /// Fails with [`HarnessError::Incomplete`] while runs are owed, and with
    /// [`HarnessError::Overflow`] when two or more samples do not satisfy
    /// [`fits`].
    pub fn finish(self) -> (result: Result<BenchmarkResult<O>, HarnessError>)
        ensures
            self@.well_formed(),
            match result {
                Ok(report) => {
                    &&& self@.complete()
                    &&& report.label@ == self@.label
                    &&& report.statistics.describes(self@.samples)
                    &&& report.statistics.count == self@.iterations
                    &&& self@.last_output == Some(report.last_output)
                    &&& self@.samples.len() >= 2 ==> fits(self@.samples)
                },
                Err(HarnessError::Incomplete) => !self@.complete(),
                Err(HarnessError::Overflow) => self@.complete() && self@.samples.len() >= 2
                    && !fits(self@.samples),
                Err(HarnessError::NoIterations) => false,
            },
    {
        proof {
            use_type_invariant(&self);
        }
        if self.samples.len() < self.iterations {
            return Err(HarnessError::Incomplete);
        }
        let statistics = match summarize(self.samples.as_slice()) {
            Ok(statistics) => statistics,
            Err(_) => {
                return Err(HarnessError::Overflow);
            },
        };
        match self.last_output {
            Some(last_output) => Ok(BenchmarkResult { label: self.label, statistics, last_output }),
            None => Err(HarnessError::Incomplete),
        }
    }
}

} // verus!
