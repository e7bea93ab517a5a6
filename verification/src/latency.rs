//! Summary statistics of round-trip latency samples, in nanoseconds.
use vstd::prelude::*;

verus! {

broadcast use vstd::seq_lib::to_multiset_build, vstd::seq_lib::to_multiset_insert, vstd::seq_lib::to_multiset_contains;

/// Whether `s` is in ascending order.
pub open spec fn is_sorted(s: Seq<u64>) -> bool {
    forall|i: int, j: int| 0 <= i <= j < s.len() ==> s[i] <= s[j]
}

/// The sum of all samples.
pub open spec fn sum_nanos(s: Seq<u64>) -> int
    decreases s.len(),
{
    if s.len() == 0 {
        0
    } else {
        sum_nanos(s.drop_last()) + s.last()
    }
}

/// The position of the `pct` percentile in `n` sorted samples: `⌊n·pct/100⌋`.
pub open spec fn percentile_index(n: int, pct: int) -> int {
    n * pct / 100
}

/// Latency statistics of a run: the samples in ascending order and the
/// order statistics taken from them.
pub struct LatencyStats {
    pub min: u64,
    pub max: u64,
    pub mean: u64,
    pub median: u64,
    pub p95: u64,
    pub p99: u64,
    pub samples: Vec<u64>,
}

proof fn lemma_sum_nanos_bounds(s: Seq<u64>)
    ensures
        0 <= sum_nanos(s) <= s.len() * u64::MAX,
    decreases s.len(),
{
    if s.len() > 0 {
        lemma_sum_nanos_bounds(s.drop_last());
    }
}

/// Inserting `x` at a position before which all elements are at most `x`
/// and from which all are greater keeps a sorted sequence sorted.
proof fn lemma_insert_keeps_sorted(s: Seq<u64>, p: int, x: u64)
    requires
        is_sorted(s),
        0 <= p <= s.len(),
        forall|k: int| 0 <= k < p ==> #[trigger] s[k] <= x,
        p < s.len() ==> x < s[p],
    ensures
        is_sorted(s.insert(p, x)),
{
    let t = s.insert(p, x);
    assert forall|i: int, j: int| 0 <= i <= j < t.len() implies t[i] <= t[j] by {
        if i < p && j < p {
        } else if i < p && j == p {
        } else if i < p {
            assert(t[j] == s[j - 1]);
        } else if i == p && j == p {
        } else if i == p {
            assert(t[j] == s[j - 1]);
            assert(s[p] <= s[j - 1]);
        } else {
            assert(t[i] == s[i - 1]);
            assert(t[j] == s[j - 1]);
        }
    }
}

impl LatencyStats {
    /// Statistics of a non-empty run of samples: the samples sorted, the
    /// smallest and largest, the mean rounded down, and the samples at the
    /// median, 95th and 99th percentile positions of the sorted run.
    /// The total of all samples must be below 2^64 seconds.
    pub fn from_samples(samples: Vec<u64>) -> (r: LatencyStats)
        requires
            samples@.len() > 0,
            samples@.len() <= u32::MAX,
            sum_nanos(samples@) / 1_000_000_000 <= u64::MAX,
        ensures
            is_sorted(r.samples@),
            r.samples@.to_multiset() == samples@.to_multiset(),
            r.samples@.len() == samples@.len(),
            r.min == r.samples@[0],
            r.max == r.samples@.last(),
            samples@.contains(r.min),
            samples@.contains(r.max),
            forall|i: int| 0 <= i < samples@.len() ==> r.min <= #[trigger] samples@[i] <= r.max,
            r.mean == sum_nanos(samples@) / (samples@.len() as int),
            r.median == r.samples@[samples@.len() as int / 2],
            r.p95 == r.samples@[percentile_index(samples@.len() as int, 95)],
            r.p99 == r.samples@[percentile_index(samples@.len() as int, 99)],
    {
        let n = samples.len();
        let mut sorted: Vec<u64> = Vec::new();
        let mut total: u128 = 0;
        let mut i: usize = 0;
        while i < n
            invariant
                n == samples@.len(),
                0 <= i <= n,
                n <= u32::MAX,
                sorted@.len() == i,
                is_sorted(sorted@),
                sorted@.to_multiset() == samples@.take(i as int).to_multiset(),
                total == sum_nanos(samples@.take(i as int)),
            decreases n - i,
        {
            let x = samples[i];
            let mut p: usize = 0;
            while p < sorted.len() && sorted[p] <= x
                invariant
                    0 <= p <= sorted@.len(),
                    forall|k: int| 0 <= k < p ==> #[trigger] sorted@[k] <= x,
                decreases sorted@.len() - p,
            {
                p = p + 1;
            }
            proof {
                lemma_insert_keeps_sorted(sorted@, p as int, x);
                assert(samples@.take(i + 1) =~= samples@.take(i as int).push(x));
                assert(samples@.take(i + 1).drop_last() =~= samples@.take(i as int));
                lemma_sum_nanos_bounds(samples@.take(i as int));
            }
            sorted.insert(p, x);
            total = total + x as u128;
            i = i + 1;
        }
        proof {
            assert(samples@.take(n as int) =~= samples@);
            lemma_sum_nanos_bounds(samples@);
            assert((total as int) / (n as int) <= u64::MAX) by (nonlinear_arith)
                requires
                    total <= n * u64::MAX,
                    n > 0,
            ;
            assert forall|i: int| 0 <= i < samples@.len() implies sorted@[0] <= #[trigger] samples@[i]
                <= sorted@.last() by {
                let x = samples@[i];
                assert(samples@.to_multiset().count(x) > 0);
                assert(sorted@.contains(x));
                let k = choose|k: int| 0 <= k < sorted@.len() && sorted@[k] == x;
                assert(sorted@[0] <= sorted@[k]);
                assert(sorted@[k] <= sorted@[n - 1]);
            }
            assert(sorted@.contains(sorted@[0]));
            assert(sorted@.contains(sorted@.last()));
            assert(sorted@.to_multiset().count(sorted@[0]) > 0);
            assert(sorted@.to_multiset().count(sorted@.last()) > 0);
            assert(n * 95 / 100 < n) by (nonlinear_arith)
                requires
                    n > 0,
            ;
            assert(n * 99 / 100 < n) by (nonlinear_arith)
                requires
                    n > 0,
            ;
        }
        let mean = (total / (n as u128)) as u64;
        let min = sorted[0];
        let max = sorted[n - 1];
        let median = sorted[n / 2];
        let n64 = n as u64;
        let p95 = sorted[(n64 * 95 / 100) as usize];
        let p99 = sorted[(n64 * 99 / 100) as usize];
        LatencyStats { min, max, mean, median, p95, p99, samples: sorted }
    }
}

} // verus!
