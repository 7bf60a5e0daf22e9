//! The fuzzer's bookkeeping stages: the statistics line written after each
//! round and the decision to stop after a time budget.
use vstd::prelude::*;

use crate::decimal::{decimal_digits, push_decimal};

verus! {

/// One line of the statistics file: corpus size, solutions, seconds since
/// the start, executions and edges found, comma separated.
pub open spec fn spec_stat_line(
    corpus_count: nat,
    solutions_count: nat,
    time: nat,
    exec: nat,
    edges_found: nat,
) -> Seq<u8> {
    decimal_digits(corpus_count) + seq![44u8] + decimal_digits(solutions_count) + seq![44u8]
        + decimal_digits(time) + seq![44u8] + decimal_digits(exec) + seq![44u8] + decimal_digits(
        edges_found,
    ) + seq![10u8]
}

/// Nanoseconds in a second.
pub const NANOS_PER_SEC: u128 = 1_000_000_000;

/// The time from `start` to `now`, or zero when `now` is not after `start`
/// (both in nanoseconds).
pub open spec fn spec_elapsed(start_nanos: u128, now_nanos: u128) -> nat {
    if now_nanos >= start_nanos {
        (now_nanos - start_nanos) as nat
    } else {
        0
    }
}

/// The time from `start` to `now` in nanoseconds, saturating at zero.
pub fn elapsed_nanos(start_nanos: u128, now_nanos: u128) -> (r: u128)
    ensures
        r == spec_elapsed(start_nanos, now_nanos),
{
    if now_nanos >= start_nanos {
        now_nanos - start_nanos
    } else {
        0
    }
}

/// Writes a statistics line after each round of the fuzzer.
#[derive(Debug)]
pub struct StatsStage {
    coverage_feedback_name: String,
}

impl StatsStage {
    pub closed spec fn spec_coverage_feedback_name(&self) -> Seq<char> {
        self.coverage_feedback_name@
    }

    /// A stage that reads the coverage of the map feedback with that name.
    pub fn new(coverage_feedback_name: String) -> (r: Self)
        ensures
            r.spec_coverage_feedback_name() == coverage_feedback_name@,
    {
        StatsStage { coverage_feedback_name }
    }

    /// The name of the map feedback whose coverage is reported.
    pub fn coverage_feedback_name(&self) -> (r: &str)
        ensures
            r@ == self.spec_coverage_feedback_name(),
    {
        self.coverage_feedback_name.as_str()
    }

    /// The line written for one round, given the durations since the start
    /// in nanoseconds: the elapsed time is reported in whole seconds.
    pub fn stat_line(
        &self,
        corpus_count: usize,
        solutions_count: usize,
        start_nanos: u128,
        now_nanos: u128,
        exec: u64,
        edges_found: usize,
    ) -> (r: Vec<u8>)
        requires
            now_nanos / NANOS_PER_SEC <= u64::MAX,
        ensures
            r@ == spec_stat_line(
                corpus_count as nat,
                solutions_count as nat,
                spec_elapsed(start_nanos, now_nanos) / (NANOS_PER_SEC as nat),
                exec as nat,
                edges_found as nat,
            ),
    {
        let elapsed = elapsed_nanos(start_nanos, now_nanos);
        assert(elapsed / NANOS_PER_SEC <= now_nanos / NANOS_PER_SEC) by (nonlinear_arith)
            requires
                elapsed <= now_nanos,
        ;
        let time = (elapsed / NANOS_PER_SEC) as u64;
        let mut out: Vec<u8> = Vec::new();
        push_decimal(&mut out, corpus_count as u64);
        out.push(44u8);
        push_decimal(&mut out, solutions_count as u64);
        out.push(44u8);
        push_decimal(&mut out, time);
        out.push(44u8);
        push_decimal(&mut out, exec);
        out.push(44u8);
        push_decimal(&mut out, edges_found as u64);
        out.push(10u8);
        assert(out@ =~= spec_stat_line(
            corpus_count as nat,
            solutions_count as nat,
            spec_elapsed(start_nanos, now_nanos) / (NANOS_PER_SEC as nat),
            exec as nat,
            edges_found as nat,
        ));
        out
    }
}

/// Stops the fuzzer once more than a time budget has passed since its start.
#[derive(Debug, Clone, Copy)]
pub struct TimeoutStopStage {
    timeout_nanos: u128,
}

impl TimeoutStopStage {
    pub closed spec fn timeout(&self) -> u128 {
        self.timeout_nanos
    }

    /// A stage with a budget of `timeout_nanos` nanoseconds.
    pub fn new(timeout_nanos: u128) -> (r: Self)
        ensures
            r.timeout() == timeout_nanos,
    {
        TimeoutStopStage { timeout_nanos }
    }

    /// Whether the fuzzer, started at `start_nanos`, must stop at `now_nanos`:
    /// when strictly more than the budget has passed.
    pub fn should_stop(&self, start_nanos: u128, now_nanos: u128) -> (r: bool)
        ensures
            r == (spec_elapsed(start_nanos, now_nanos) > self.timeout()),
    {
        elapsed_nanos(start_nanos, now_nanos) > self.timeout_nanos
    }
}

} // verus!
