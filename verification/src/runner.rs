//! Running a script under a clock.
//!
//! A run evaluates one script, decodes what it returned and measures how long
//! both took together. A script that fails, or returns what does not decode,
//! ends the run with that error and without a measurement.
use vstd::prelude::*;
use crate::decode::{BenchmarkResult, DecodeError, FullLookups, Observed};
use crate::lua::{evaluate, seen, start_clock, time_since, nanos_of};
use crate::timing::{derive_stats, stats_of, Elapsed, Stats, StatsError};

verus! {

/// Why a run failed.
#[derive(Debug)]
pub enum RunError {
    /// The script did not load or raised an error while it ran. The error is
    /// the interpreter's own, unchanged.
    Script(mlua::Error),
    /// The script returned a value that does not decode.
    Decode(DecodeError),
}

/// What a run produced and how long it took.
#[derive(Clone, Copy, Debug, PartialEq, Eq, Structural)]
pub struct Report {
    pub result: BenchmarkResult,
    pub elapsed: Elapsed,
}

/// The outcome is one that decoding gives: a record that some observation
/// decodes to, or the decode error of some observation. Nothing is said of a
/// script error.
pub open spec fn is_decoding(outcome: Result<BenchmarkResult, RunError>) -> bool {
    match outcome {
        Ok(record) => exists|observed: Observed<FullLookups>|
            BenchmarkResult::decoded(observed) == Ok::<BenchmarkResult, DecodeError>(record),
        Err(RunError::Decode(error)) => exists|observed: Observed<FullLookups>|
            BenchmarkResult::decoded(observed) == Err::<BenchmarkResult, DecodeError>(error),
        Err(RunError::Script(_)) => true,
    }
}

/// Evaluates `source` in `lua` and decodes the value it returns.
///
/// An error of the script comes back as it was raised; otherwise the outcome
/// is that of decoding the returned value.
pub fn run_script(lua: &mlua::Lua, source: &str) -> (r: Result<BenchmarkResult, RunError>)
    ensures
        is_decoding(r),
{
    match evaluate(lua, source) {
        Err(error) => Err(RunError::Script(error)),
        Ok(value) => {
            let decoded = BenchmarkResult::from_lua(value, lua);
            proof {
                if !(seen(value) is Table) {
                    assert(decoded == BenchmarkResult::decoded(
                        Observed::NotRecord(seen(value).spec_kind()),
                    ));
                }
            }
            match decoded {
                Ok(record) => Ok(record),
                Err(error) => Err(RunError::Decode(error)),
            }
        },
    }
}

/// Runs `source` as [`run_script`] does, under a clock that starts just
/// before the script is evaluated and stops once its result is decoded. A
/// run that fails is not measured.
pub fn run_timed(lua: &mlua::Lua, source: &str) -> (r: Result<Report, RunError>)
    ensures
        is_decoding(
            match r {
                Ok(report) => Ok(report.result),
                Err(error) => Err(error),
            },
        ),
{
    let start = start_clock();
    match run_script(lua, source) {
        Ok(result) => {
            let duration = time_since(&start);
            Ok(Report { result, elapsed: Elapsed { nanos: nanos_of(&duration) } })
        },
        Err(error) => Err(error),
    }
}

impl Report {
    /// The rates of the run, for a script known to make `iteration_count`
    /// iterations. The operations are those that the script reported.
    pub fn stats(&self, iteration_count: u32) -> (r: Result<Stats, StatsError>)
        ensures
            r == stats_of(self.elapsed, iteration_count, self.result.operations),
            r is Err <==> iteration_count == 0 || self.result.operations == 0 || self.elapsed.nanos
                == 0,
    {
        derive_stats(self.elapsed, iteration_count, self.result.operations)
    }
}

} // verus!
