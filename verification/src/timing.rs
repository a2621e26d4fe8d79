//! Rates derived from one timed run.
//!
//! Everything here is a function of three values: the elapsed time, the
//! number of iterations the script was written to make, and the number of
//! operations it reported. Times are whole nanoseconds and rates are whole
//! events per second, both rounded down.
use vstd::prelude::*;

verus! {

/// Nanoseconds in a second.
pub const NANOS_PER_SECOND: u128 = 1_000_000_000;

/// A span of time in whole nanoseconds.
#[derive(Clone, Copy, Debug, PartialEq, Eq, Structural)]
pub struct Elapsed {
    pub nanos: u128,
}

impl Elapsed {
    /// The span of `secs` whole seconds and `subsec_nanos` nanoseconds more.
    pub fn new(secs: u64, subsec_nanos: u32) -> (r: Elapsed)
        ensures
            r.nanos == secs * NANOS_PER_SECOND + subsec_nanos,
    {
        Elapsed { nanos: (secs as u128) * NANOS_PER_SECOND + (subsec_nanos as u128) }
    }

    /// The whole seconds in the span.
    pub fn whole_seconds(self) -> (r: u128)
        ensures
            r == self.nanos as int / NANOS_PER_SECOND as int,
    {
        self.nanos / NANOS_PER_SECOND
    }

    /// The nanoseconds in the span beyond its whole seconds.
    pub fn subsec_nanos(self) -> (r: u32)
        ensures
            r == self.nanos as int % NANOS_PER_SECOND as int,
    {
        (self.nanos % NANOS_PER_SECOND) as u32
    }
}

/// Why a figure could not be derived.
#[derive(Clone, Copy, Debug, PartialEq, Eq, Structural)]
pub enum StatsError {
    /// The divisor is zero: no iterations, no operations, or no time elapsed.
    DivisionByZero,
}

/// The figures derived from one run.
#[derive(Clone, Copy, Debug, PartialEq, Eq, Structural)]
pub struct Stats {
    pub time_per_iteration: Elapsed,
    pub time_per_operation: Elapsed,
    pub iterations_per_second: u128,
    pub operations_per_second: u128,
}

/// A span shared out evenly over `count` events, rounded down to the
/// nanosecond; an error when there are no events.
pub open spec fn time_per(duration: Elapsed, count: u32) -> Result<Elapsed, StatsError> {
    if count == 0 {
        Err(StatsError::DivisionByZero)
    } else {
        Ok(Elapsed { nanos: (duration.nanos as int / count as int) as u128 })
    }
}

/// How many of `count` events fall in one second when all of them took
/// `duration`, rounded down; an error when no time elapsed.
pub open spec fn per_second(count: u32, duration: Elapsed) -> Result<u128, StatsError> {
    if duration.nanos == 0 {
        Err(StatsError::DivisionByZero)
    } else {
        Ok(((count as int * NANOS_PER_SECOND as int) / (duration.nanos as int)) as u128)
    }
}

/// The four figures together; an error as soon as one of them has none.
pub open spec fn stats_of(duration: Elapsed, iteration_count: u32, operations: u32) -> Result<
    Stats,
    StatsError,
> {
    if iteration_count == 0 || operations == 0 || duration.nanos == 0 {
        Err(StatsError::DivisionByZero)
    } else {
        Ok(
            Stats {
                time_per_iteration: time_per(duration, iteration_count).unwrap(),
                time_per_operation: time_per(duration, operations).unwrap(),
                iterations_per_second: per_second(iteration_count, duration).unwrap(),
                operations_per_second: per_second(operations, duration).unwrap(),
            },
        )
    }
}

fn divide(duration: Elapsed, count: u32) -> (r: Result<Elapsed, StatsError>)
    ensures
        r == time_per(duration, count),
{
    if count == 0 {
        Err(StatsError::DivisionByZero)
    } else {
        Ok(Elapsed { nanos: duration.nanos / (count as u128) })
    }
}

fn rate(count: u32, duration: Elapsed) -> (r: Result<u128, StatsError>)
    ensures
        r == per_second(count, duration),
{
    if duration.nanos == 0 {
        Err(StatsError::DivisionByZero)
    } else {
        let scaled: u128 = (count as u128) * NANOS_PER_SECOND;
        assert(scaled / duration.nanos <= scaled) by (nonlinear_arith)
            requires
                duration.nanos > 0,
        ;
        Ok(scaled / duration.nanos)
    }
}

/// The time one iteration took on average.
pub fn time_per_iteration(duration: Elapsed, iteration_count: u32) -> (r: Result<
    Elapsed,
    StatsError,
>)
    ensures
        r == time_per(duration, iteration_count),
        r is Err <==> iteration_count == 0,
{
    divide(duration, iteration_count)
}

/// The time one operation took on average. A run that reported no operations
/// has no such figure: that is an error, never a made-up value.
pub fn time_per_operation(duration: Elapsed, operations: u32) -> (r: Result<Elapsed, StatsError>)
    ensures
        r == time_per(duration, operations),
        r is Err <==> operations == 0,
{
    divide(duration, operations)
}

/// How many iterations ran per second.
pub fn iterations_per_second(iteration_count: u32, duration: Elapsed) -> (r: Result<
    u128,
    StatsError,
>)
    ensures
        r == per_second(iteration_count, duration),
        r is Err <==> duration.nanos == 0,
{
    rate(iteration_count, duration)
}

/// How many operations ran per second.
pub fn operations_per_second(operations: u32, duration: Elapsed) -> (r: Result<u128, StatsError>)
    ensures
        r == per_second(operations, duration),
        r is Err <==> duration.nanos == 0,
{
    rate(operations, duration)
}

/// All four figures of a run.
pub fn derive_stats(duration: Elapsed, iteration_count: u32, operations: u32) -> (r: Result<
    Stats,
    StatsError,
>)
    ensures
        r == stats_of(duration, iteration_count, operations),
        r is Err <==> iteration_count == 0 || operations == 0 || duration.nanos == 0,
{
    if iteration_count == 0 || operations == 0 || duration.nanos == 0 {
        return Err(StatsError::DivisionByZero);
    }
    let time_per_iteration = match divide(duration, iteration_count) {
        Ok(t) => t,
        Err(e) => { return Err(e); },
    };
    let time_per_operation = match divide(duration, operations) {
        Ok(t) => t,
        Err(e) => { return Err(e); },
    };
    let iterations_per_second = match rate(iteration_count, duration) {
        Ok(n) => n,
        Err(e) => { return Err(e); },
    };
    let operations_per_second = match rate(operations, duration) {
        Ok(n) => n,
        Err(e) => { return Err(e); },
    };
    Ok(Stats { time_per_iteration, time_per_operation, iterations_per_second, operations_per_second })
}

/// An average time, multiplied back by the number of events, never exceeds
/// the time that elapsed, and falls short of it by less than one nanosecond
/// per event.
pub proof fn average_time_brackets_total(duration: Elapsed, count: u32)
    requires
        count != 0,
    ensures
        time_per(duration, count) is Ok,
        time_per(duration, count).unwrap().nanos * count <= duration.nanos,
        duration.nanos < (time_per(duration, count).unwrap().nanos + 1) * count,
{
    let d = duration.nanos as int;
    let c = count as int;
    assert(0 <= d / c <= d && (d / c) * c <= d && d < (d / c + 1) * c) by (nonlinear_arith)
        requires
            d >= 0,
            c > 0,
    ;
}

/// A rate, multiplied back by the elapsed time, never exceeds the number of
/// events scaled to nanoseconds, and falls short by less than the elapsed time.
pub proof fn rate_brackets_count(count: u32, duration: Elapsed)
    requires
        duration.nanos != 0,
    ensures
        per_second(count, duration) is Ok,
        per_second(count, duration).unwrap() * duration.nanos <= count * NANOS_PER_SECOND,
        count * NANOS_PER_SECOND < (per_second(count, duration).unwrap() + 1) * duration.nanos,
{
    let d = duration.nanos as int;
    let s = count as int * NANOS_PER_SECOND as int;
    assert(0 <= s / d <= s && (s / d) * d <= s && s < (s / d + 1) * d) by (nonlinear_arith)
        requires
            s >= 0,
            d > 0,
    ;
}

} // verus!
