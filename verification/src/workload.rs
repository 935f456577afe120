//! The throughput probe's workload: two dense square matrices of a given
//! dimension, filled from a fixed, reproducible pseudo-random stream, so that
//! every backend multiplies the same numerically stable data and repeated
//! calls with one dimension produce identical workloads.

use vstd::prelude::*;

use crate::sampler::MAX_MATRIX_SIZE;

verus! {

/// Modulus of the value stream (a Mersenne prime).
pub const STREAM_MODULUS: u64 = 2_147_483_647;

/// Multiplier of the value stream.
pub const STREAM_MULTIPLIER: u64 = 48_271;

/// Seed the stream starts from.
pub const STREAM_SEED: u64 = 1;

/// One step of the multiplicative congruential stream.
pub open spec fn spec_stream_step(state: int) -> int {
    (state * STREAM_MULTIPLIER) % (STREAM_MODULUS as int)
}

/// The `k`-th value of the stream (the state after `k + 1` steps from the
/// seed).
pub open spec fn spec_stream(k: nat) -> int
    decreases k,
{
    if k == 0 {
        spec_stream_step(STREAM_SEED as int)
    } else {
        spec_stream_step(spec_stream((k - 1) as nat))
    }
}

/// Two dense `size x size` matrices in row-major order, each entry a value
/// of the fixed stream in `[0, STREAM_MODULUS)`; a backend maps the entries
/// into its own numeric type before multiplying.
pub struct Workload {
    pub size: u64,
    pub a: Vec<u64>,
    pub b: Vec<u64>,
}

impl Workload {
    /// Well-formedness: both matrices hold exactly `size * size` entries,
    /// and every entry is the stream value for its position — `a` takes the
    /// first `size * size` values, `b` the next.
    pub open spec fn wf(self) -> bool {
        &&& 1 <= self.size <= MAX_MATRIX_SIZE
        &&& self.a@.len() == self.size * self.size
        &&& self.b@.len() == self.size * self.size
        &&& forall|k: int| 0 <= k < self.a@.len() ==> self.a@[k] == spec_stream(k as nat)
        &&& forall|k: int|
            0 <= k < self.b@.len() ==> self.b@[k] == spec_stream(
                (self.size * self.size + k) as nat,
            )
    }
}

/// Advances the stream by one step.
fn stream_step(state: u64) -> (r: u64)
    requires
        state < STREAM_MODULUS,
    ensures
        r == spec_stream_step(state as int),
        r < STREAM_MODULUS,
{
    (state * STREAM_MULTIPLIER) % STREAM_MODULUS
}

/// Every stream value lies below the modulus.
proof fn lemma_stream_in_range(k: nat)
    ensures
        0 <= spec_stream(k) < STREAM_MODULUS,
    decreases k,
{
    if k > 0 {
        lemma_stream_in_range((k - 1) as nat);
    }
}

/// Builds the workload for one matrix dimension. The result is well-formed,
/// which pins every entry: two calls with the same `size` return equal
/// workloads. For any dimension above one, the first two entries already
/// differ, so the data is neither all-zero nor all-identical.
pub fn make_workload(size: u64) -> (r: Workload)
    requires
        1 <= size <= MAX_MATRIX_SIZE,
        size * size * 2 <= usize::MAX,
    ensures
        r.wf(),
        r.size == size,
        size >= 2 ==> r.a@[0] != r.a@[1],
{
    let n: usize = (size as usize) * (size as usize);
    let mut a: Vec<u64> = Vec::new();
    let mut b: Vec<u64> = Vec::new();
    let mut state: u64 = STREAM_SEED;
    let mut k: usize = 0;
    while k < n
        invariant
            n == size * size,
            size * size * 2 <= usize::MAX,
            0 <= k <= n,
            a@.len() == k,
            state < STREAM_MODULUS || k == 0,
            k == 0 ==> state == STREAM_SEED,
            k > 0 ==> state == spec_stream((k - 1) as nat),
            forall|j: int| 0 <= j < k ==> a@[j] == spec_stream(j as nat),
        decreases n - k,
    {
        let v = stream_step(state);
        proof {
            if k > 0 {
                assert(v == spec_stream(k as nat));
            }
        }
        a.push(v);
        state = v;
        k = k + 1;
    }
    proof {
        assert(n >= 1) by (nonlinear_arith)
            requires
                n == size * size,
                size >= 1,
        ;
    }
    let mut k2: usize = 0;
    while k2 < n
        invariant
            n == size * size,
            size * size * 2 <= usize::MAX,
            0 <= k2 <= n,
            n >= 1,
            a@.len() == n,
            b@.len() == k2,
            forall|j: int| 0 <= j < n ==> a@[j] == spec_stream(j as nat),
            n + k2 == 0 ==> state == STREAM_SEED,
            n + k2 > 0 ==> state == spec_stream((n + k2 - 1) as nat),
            state < STREAM_MODULUS,
            forall|j: int| 0 <= j < k2 ==> b@[j] == spec_stream((n + j) as nat),
        decreases n - k2,
    {
        let v = stream_step(state);
        proof {
            assert(v == spec_stream((n + k2) as nat));
        }
        b.push(v);
        state = v;
        k2 = k2 + 1;
    }
    proof {
        if size >= 2 {
            reveal_with_fuel(spec_stream, 2);
            assert(spec_stream(0) == 48_271);
            assert(spec_stream(1) == (48_271 * 48_271) % 2_147_483_647);
            assert(n >= 2) by (nonlinear_arith)
                requires
                    n == size * size,
                    size >= 2,
            ;
        }
    }
    Workload { size, a, b }
}

} // verus!
