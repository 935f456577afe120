//! Flop accounting and throughput arithmetic for one benchmark run.
//!
//! Executing the workload on a device and reading the monotonic clock happen
//! outside this crate; the caller hands the measured elapsed time here as a
//! nanosecond count, and everything derived from it is computed and verified
//! exactly over the integers.

use vstd::arithmetic::div_mod::{
    lemma_div_is_ordered, lemma_div_multiples_vanish, lemma_div_nonincreasing,
    lemma_div_pos_is_pos, lemma_fundamental_div_mod, lemma_mod_bound,
};
use vstd::arithmetic::mul::lemma_mul_inequality;
use vstd::prelude::*;

use crate::device::{spec_unit_for, unit_for, Device, ThroughputUnit};

verus! {

/// Largest accepted matrix dimension; keeps `2 * size^3 * iterations`
/// comfortably inside `u128` arithmetic.
pub const MAX_MATRIX_SIZE: u64 = 1_000_000;

/// Largest accepted repetition count, for the same overflow bound.
pub const MAX_ITERATIONS: u64 = 1_000_000_000;

/// Nanoseconds in one second, the clock resolution elapsed time is carried in.
pub const NANOS_PER_SEC: u64 = 1_000_000_000;

/// Why a single benchmark run produced no sample. Neither failure is fatal to
/// a report: the affected device entry or section is simply omitted.
#[derive(Clone, Copy, Debug, PartialEq, Eq, Structural)]
pub enum SampleError {
    /// The backend or driver could not execute the workload on the device.
    DeviceUnavailable,
    /// The timer reported zero elapsed time: its resolution is too coarse for
    /// the chosen workload, so no meaningful rate can be formed.
    InsufficientPrecision,
}

/// Flops of one dense `size x size` matrix multiplication: one multiply and
/// one add per inner-product term.
pub open spec fn spec_flops_per_iteration(size: int) -> int {
    2 * size * size * size
}

/// Flops of `iterations` repetitions of the workload.
pub open spec fn spec_total_flops(size: int, iterations: int) -> int {
    spec_flops_per_iteration(size) * iterations
}

/// Flops per second, rounded down, from a total flop count and a positive
/// elapsed time in nanoseconds.
pub open spec fn spec_throughput(total_flops: int, elapsed_nanos: int) -> int
    recommends
        elapsed_nanos > 0,
{
    total_flops * (NANOS_PER_SEC as int) / elapsed_nanos
}

/// `flops_per_iteration(size) == 2 * size^3`, exactly.
pub fn flops_per_iteration(size: u64) -> (r: u64)
    requires
        1 <= size <= MAX_MATRIX_SIZE,
    ensures
        r == spec_flops_per_iteration(size as int),
{
    proof {
        assert(2 * (size as int) * (size as int) <= 2_000_000_000_000
            && 2 * (size as int) * (size as int) * (size as int) <= 2_000_000_000_000_000_000)
            by (nonlinear_arith)
            requires
                1 <= size <= 1_000_000,
        ;
    }
    2 * size * size * size
}

/// The result of one successful benchmark run: the device, the workload shape
/// it ran with, the measured elapsed time, and the exact integer throughput
/// derived from them.
#[derive(Clone, Copy, Debug, PartialEq, Eq, Structural)]
pub struct ThroughputSample {
    pub device: Device,
    pub unit: ThroughputUnit,
    pub size: u64,
    pub iterations: u64,
    pub elapsed_nanos: u64,
    pub flops_per_sec: u128,
}

impl ThroughputSample {
    /// Well-formedness: positive elapsed time, workload shape in range, the
    /// unit determined by the device, and the rate exactly the quotient of
    /// total flops by elapsed seconds.
    pub open spec fn wf(self) -> bool {
        &&& 1 <= self.size <= MAX_MATRIX_SIZE
        &&& 1 <= self.iterations <= MAX_ITERATIONS
        &&& self.elapsed_nanos > 0
        &&& self.unit == spec_unit_for(self.device)
        &&& self.flops_per_sec == spec_throughput(
            spec_total_flops(self.size as int, self.iterations as int),
            self.elapsed_nanos as int,
        )
    }
}

/// The unique well-formed sample for a run of `iterations` repetitions at
/// dimension `size` on `device` that took `elapsed_nanos > 0`.
pub open spec fn spec_sample(
    device: Device,
    iterations: u64,
    size: u64,
    elapsed_nanos: u64,
) -> ThroughputSample {
    ThroughputSample {
        device,
        unit: spec_unit_for(device),
        size,
        iterations,
        elapsed_nanos,
        flops_per_sec: spec_throughput(
            spec_total_flops(size as int, iterations as int),
            elapsed_nanos as int,
        ) as u128,
    }
}

/// Turns one timed run into a sample. A zero elapsed time is rejected as
/// `InsufficientPrecision` — a throughput is never formed by dividing by
/// zero — and any positive elapsed time yields exactly the well-formed
/// sample for these arguments.
pub fn sample_from_elapsed(
    device: Device,
    iterations: u64,
    size: u64,
    elapsed_nanos: u64,
) -> (r: Result<ThroughputSample, SampleError>)
    requires
        1 <= size <= MAX_MATRIX_SIZE,
        1 <= iterations <= MAX_ITERATIONS,
    ensures
        r is Err <==> elapsed_nanos == 0,
        elapsed_nanos == 0 ==> r == Err::<ThroughputSample, SampleError>(
            SampleError::InsufficientPrecision,
        ),
        elapsed_nanos > 0 ==> r == Ok::<ThroughputSample, SampleError>(
            spec_sample(device, iterations, size, elapsed_nanos),
        ),
        r matches Ok(s) ==> s.wf(),
{
    if elapsed_nanos == 0 {
        return Err(SampleError::InsufficientPrecision);
    }
    proof {
        lemma_total_flops_bounds(size as int, iterations as int);
    }
    let per_iteration: u128 = flops_per_iteration(size) as u128;
    let total_flops: u128 = per_iteration * (iterations as u128);
    let flops_per_sec: u128 = total_flops * (NANOS_PER_SEC as u128) / (elapsed_nanos as u128);
    proof {
        lemma_div_pos_is_pos(
            spec_total_flops(size as int, iterations as int) * (NANOS_PER_SEC as int),
            elapsed_nanos as int,
        );
    }
    Ok(ThroughputSample {
        device,
        unit: unit_for(device),
        size,
        iterations,
        elapsed_nanos,
        flops_per_sec,
    })
}

/// Bounds used to show the exec throughput arithmetic stays inside `u128`.
proof fn lemma_total_flops_bounds(size: int, iterations: int)
    requires
        1 <= size <= MAX_MATRIX_SIZE,
        1 <= iterations <= MAX_ITERATIONS,
    ensures
        0 < spec_flops_per_iteration(size) <= 2_000_000_000_000_000_000,
        0 < spec_total_flops(size, iterations) <= 2_000_000_000_000_000_000_000_000_000,
        spec_total_flops(size, iterations) * (NANOS_PER_SEC as int)
            <= 2_000_000_000_000_000_000_000_000_000_000_000_000,
{
    assert(0 < 2 * size * size * size <= 2_000_000_000_000_000_000
        && 0 < 2 * size * size * size * iterations <= 2_000_000_000_000_000_000_000_000_000
        && 2 * size * size * size * iterations * 1_000_000_000
            <= 2_000_000_000_000_000_000_000_000_000_000_000_000)
        by (nonlinear_arith)
        requires
            1 <= size <= 1_000_000,
            1 <= iterations <= 1_000_000_000,
    ;
}

/// The escalation step used when a run came back with zero elapsed time:
/// double the repetition count while that stays within range, give up (and
/// let the caller report `InsufficientPrecision`) once it would not.
pub fn escalate_iterations(iterations: u64) -> (r: Option<u64>)
    requires
        1 <= iterations <= MAX_ITERATIONS,
    ensures
        2 * iterations <= MAX_ITERATIONS ==> (r matches Some(n) && n == 2 * iterations),
        2 * iterations > MAX_ITERATIONS ==> r is None,
{
    if iterations <= MAX_ITERATIONS / 2 {
        Some(2 * iterations)
    } else {
        None
    }
}

/// Division is monotone under cross-multiplied comparison of two fractions:
/// if `c/d <= a/b` as rationals (stated as `c * b <= a * d`), the same order
/// holds after rounding both quotients down.
proof fn lemma_div_ordered_by_cross_mul(a: int, b: int, c: int, d: int)
    requires
        a >= 0,
        c >= 0,
        b >= 1,
        d >= 1,
        c * b <= a * d,
    ensures
        c / d <= a / b,
{
    let q = c / d;
    lemma_div_pos_is_pos(c, d);
    lemma_fundamental_div_mod(c, d);
    lemma_mod_bound(c, d);
    assert(q * d <= c);
    lemma_mul_inequality(q * d, c, b);
    assert(q * d * b <= c * b);
    assert(q * b * d <= a * d) by (nonlinear_arith)
        requires
            q * d * b <= c * b,
            c * b <= a * d,
    ;
    assert(q * b <= a) by (nonlinear_arith)
        requires
            q * b * d <= a * d,
            d >= 1,
    ;
    lemma_div_is_ordered(q * b, a, b);
    lemma_div_multiples_vanish(q, b);
    assert(b * q == q * b) by (nonlinear_arith);
    assert(q * b / b == q);
}

/// Linear-scaling sanity law: for a fixed device and workload dimension, as
/// the repetition count grows while the elapsed time stays within the same
/// ratio of it (the per-iteration cost does not increase, stated as
/// `e2 * i1 <= e1 * i2`), the derived throughput never decreases.
pub proof fn lemma_throughput_monotonic(size: int, i1: int, i2: int, e1: int, e2: int)
    requires
        size >= 1,
        1 <= i1 <= i2,
        e1 >= 1,
        e2 >= 1,
        e2 * i1 <= e1 * i2,
    ensures
        spec_throughput(spec_total_flops(size, i1), e1)
            <= spec_throughput(spec_total_flops(size, i2), e2),
{
    let f = spec_flops_per_iteration(size);
    assert(f >= 0) by (nonlinear_arith)
        requires
            f == 2 * size * size * size,
            size >= 1,
    ;
    let k = NANOS_PER_SEC as int;
    assert(f * i1 * k * e2 <= f * i2 * k * e1) by (nonlinear_arith)
        requires
            e2 * i1 <= e1 * i2,
            f >= 0,
            k == 1_000_000_000,
    ;
    assert(f * i1 >= 0 && f * i2 >= 0) by (nonlinear_arith)
        requires
            f >= 0,
            i1 >= 1,
            i2 >= 1,
    ;
    assert(f * i1 * k >= 0 && f * i2 * k >= 0) by (nonlinear_arith)
        requires
            f * i1 >= 0,
            f * i2 >= 0,
            k == 1_000_000_000,
    ;
    lemma_div_ordered_by_cross_mul(f * i2 * k, e2, f * i1 * k, e1);
}

/// The same law over the samples themselves: of two well-formed samples for
/// one device and dimension, the one with the higher repetition count and no
/// worse per-iteration cost stores at least as high a rate.
pub proof fn lemma_sample_throughput_monotonic(
    device: Device,
    size: u64,
    i1: u64,
    i2: u64,
    e1: u64,
    e2: u64,
)
    requires
        1 <= size <= MAX_MATRIX_SIZE,
        1 <= i1 <= i2,
        i2 <= MAX_ITERATIONS,
        e1 >= 1,
        e2 >= 1,
        (e2 as int) * (i1 as int) <= (e1 as int) * (i2 as int),
    ensures
        spec_sample(device, i1, size, e1).flops_per_sec <= spec_sample(
            device,
            i2,
            size,
            e2,
        ).flops_per_sec,
{
    lemma_throughput_monotonic(size as int, i1 as int, i2 as int, e1 as int, e2 as int);
    lemma_total_flops_bounds(size as int, i1 as int);
    lemma_total_flops_bounds(size as int, i2 as int);
    let t1 = spec_total_flops(size as int, i1 as int);
    let t2 = spec_total_flops(size as int, i2 as int);
    lemma_div_pos_is_pos(t1 * (NANOS_PER_SEC as int), e1 as int);
    lemma_div_pos_is_pos(t2 * (NANOS_PER_SEC as int), e2 as int);
    lemma_div_nonincreasing(t1 * (NANOS_PER_SEC as int), e1 as int);
    lemma_div_nonincreasing(t2 * (NANOS_PER_SEC as int), e2 as int);
}

} // verus!
