//! Fixed-point arithmetic helpers shared by the processing stages.

use vstd::prelude::*;
use crate::SCALE;

verus! {

/// Multiply a fixed-point value by a fixed-point factor and drop the extra
/// scale, rounding toward zero (the spec-level meaning of `scaled_mul`).
pub open spec fn spec_scaled(value: int, factor: int) -> int {
    let p = value * factor;
    if p >= 0 {
        p / (SCALE as int)
    } else {
        -((-p) / (SCALE as int))
    }
}

/// A fixed-point gain in [0.0, 1.0].
pub open spec fn is_unit(g: int) -> bool {
    0 <= g <= SCALE as int
}

proof fn lemma_mul_bounds(a: int, b: int, a_bound: int, b_bound: int)
    requires
        -a_bound <= a <= a_bound,
        0 <= b <= b_bound,
        0 <= a_bound,
    ensures
        -(a_bound * b_bound) <= a * b <= a_bound * b_bound,
{
    assert(-(a_bound * b_bound) <= a * b <= a_bound * b_bound) by (nonlinear_arith)
        requires
            -a_bound <= a <= a_bound,
            0 <= b <= b_bound,
            0 <= a_bound,
    ;
}

/// `spec_scaled` never grows a value when the factor is at most `SCALE`.
pub proof fn lemma_scaled_shrinks(value: int, factor: int)
    requires
        is_unit(factor),
    ensures
        value >= 0 ==> 0 <= spec_scaled(value, factor) <= value,
        value < 0 ==> value <= spec_scaled(value, factor) <= 0,
{
    let p = value * factor;
    if value >= 0 {
        assert(0 <= p <= value * (SCALE as int)) by (nonlinear_arith)
            requires
                p == value * factor,
                value >= 0,
                0 <= factor <= SCALE as int,
        ;
        assert(p / (SCALE as int) <= value) by (nonlinear_arith)
            requires
                0 <= p <= value * (SCALE as int),
                value >= 0,
        ;
    } else {
        assert(0 <= -p <= (-value) * (SCALE as int)) by (nonlinear_arith)
            requires
                p == value * factor,
                value < 0,
                0 <= factor <= SCALE as int,
        ;
        assert((-p) / (SCALE as int) <= -value) by (nonlinear_arith)
            requires
                0 <= -p <= (-value) * (SCALE as int),
                value < 0,
        ;
    }
}

/// Apply a fixed-point factor in [0, 10.0] to a bounded fixed-point value.
pub fn scaled_mul(value: i64, factor: i64) -> (r: i64)
    requires
        -100_000_000_000 <= value <= 100_000_000_000,
        0 <= factor <= 10_000_000,
    ensures
        r == spec_scaled(value as int, factor as int),
        factor <= SCALE ==> (if value >= 0 {
            0 <= r <= value
        } else {
            value <= r <= 0
        }),
{
    proof {
        lemma_mul_bounds(value as int, factor as int, 100_000_000_000, 10_000_000);
        if factor <= SCALE {
            lemma_scaled_shrinks(value as int, factor as int);
        }
    }
    let p = value * factor;
    if p >= 0 {
        p / SCALE
    } else {
        -((-p) / SCALE)
    }
}

/// Clamp a value to the inclusive range [lo, hi].
pub fn clamp_i64(value: i64, lo: i64, hi: i64) -> (r: i64)
    requires
        lo <= hi,
    ensures
        r == spec_clamp(value as int, lo as int, hi as int),
{
    if value < lo {
        lo
    } else if value > hi {
        hi
    } else {
        value
    }
}

pub open spec fn spec_clamp(value: int, lo: int, hi: int) -> int {
    if value < lo {
        lo
    } else if value > hi {
        hi
    } else {
        value
    }
}

/// `r` is the integer square root of `n`.
pub open spec fn is_isqrt(n: int, r: int) -> bool {
    r >= 0 && r * r <= n < (r + 1) * (r + 1)
}

/// The integer square root of `n` (meaningful for `n >= 0`).
pub open spec fn spec_isqrt(n: int) -> int {
    choose|r: int| is_isqrt(n, r)
}

/// The integer square root is unique, so any witness pins `spec_isqrt` down.
pub proof fn lemma_isqrt_unique(n: int, r: int)
    requires
        is_isqrt(n, r),
    ensures
        spec_isqrt(n) == r,
{
    assert(exists|x: int| is_isqrt(n, x)) by {
        assert(is_isqrt(n, r));
    }
    let c = choose|x: int| is_isqrt(n, x);
    assert(c == r) by (nonlinear_arith)
        requires
            c >= 0,
            r >= 0,
            c * c <= n < (c + 1) * (c + 1),
            r * r <= n < (r + 1) * (r + 1),
    ;
}

/// Sum of the squares of a sample sequence.
pub open spec fn spec_sum_squares(s: Seq<i64>) -> int
    decreases s.len(),
{
    if s.len() == 0 {
        0
    } else {
        spec_sum_squares(s.drop_last()) + s.last() * s.last()
    }
}

/// Root mean square of a sample sequence, in the same fixed-point units as
/// the samples themselves.
pub open spec fn spec_rms(s: Seq<i64>) -> int {
    spec_isqrt(spec_sum_squares(s) / (s.len() as int))
}

/// Compute the root mean square amplitude of a frame.
#[verifier::loop_isolation(false)]
pub fn rms(samples: &Vec<i64>) -> (r: i64)
    requires
        1 <= samples@.len() <= 4096,
        forall|i: int|
            0 <= i < samples@.len() ==> -crate::MAX_AMP <= #[trigger] samples@[i]
                <= crate::MAX_AMP,
    ensures
        r == spec_rms(samples@),
        0 <= r <= crate::MAX_AMP,
{
    let mut sum: u64 = 0;
    let mut i: usize = 0;
    while i < samples.len()
        invariant
            i <= samples@.len(),
            sum == spec_sum_squares(samples@.subrange(0, i as int)),
            sum <= i * 1_024_000_000_000_000,
        decreases samples@.len() - i,
    {
        let s = samples[i];
        proof {
            assert(0 <= (s as int) * (s as int) <= 1_024_000_000_000_000) by (nonlinear_arith)
                requires
                    -crate::MAX_AMP <= s as int <= crate::MAX_AMP,
            ;
            assert(samples@.subrange(0, i + 1 as int).drop_last() =~= samples@.subrange(
                0,
                i as int,
            ));
        }
        sum = sum + ((s * s) as u64);
        i = i + 1;
    }
    proof {
        assert(samples@.subrange(0, samples@.len() as int) =~= samples@);
    }
    let mean = sum / (samples.len() as u64);
    proof {
        assert(mean <= 1_024_000_000_000_000) by (nonlinear_arith)
            requires
                mean == (sum as int) / (samples@.len() as int),
                sum <= samples@.len() * 1_024_000_000_000_000,
                1 <= samples@.len() <= 4096,
        ;
    }
    let root = isqrt(mean);
    proof {
        lemma_isqrt_unique(mean as int, root as int);
        assert(root <= crate::MAX_AMP) by (nonlinear_arith)
            requires
                root >= 0,
                (root as int) * (root as int) <= mean,
                mean <= 1_024_000_000_000_000,
        ;
    }
    root as i64
}

/// Mean of the squared samples of a frame (fixed-point squared units).
#[verifier::loop_isolation(false)]
pub fn mean_square(samples: &Vec<i64>) -> (r: i64)
    requires
        1 <= samples@.len() <= 4096,
        forall|i: int|
            0 <= i < samples@.len() ==> -crate::MAX_AMP <= #[trigger] samples@[i]
                <= crate::MAX_AMP,
    ensures
        r == spec_sum_squares(samples@) / (samples@.len() as int),
        0 <= r <= 1_024_000_000_000_000,
{
    let mut sum: u64 = 0;
    let mut i: usize = 0;
    while i < samples.len()
        invariant
            i <= samples@.len(),
            sum == spec_sum_squares(samples@.subrange(0, i as int)),
            sum <= i * 1_024_000_000_000_000,
        decreases samples@.len() - i,
    {
        let s = samples[i];
        proof {
            assert(0 <= (s as int) * (s as int) <= 1_024_000_000_000_000) by (nonlinear_arith)
                requires
                    -crate::MAX_AMP <= s as int <= crate::MAX_AMP,
            ;
            assert(samples@.subrange(0, i + 1 as int).drop_last() =~= samples@.subrange(
                0,
                i as int,
            ));
        }
        sum = sum + ((s * s) as u64);
        i = i + 1;
    }
    proof {
        assert(samples@.subrange(0, samples@.len() as int) =~= samples@);
    }
    let mean = sum / (samples.len() as u64);
    proof {
        assert(mean <= 1_024_000_000_000_000) by (nonlinear_arith)
            requires
                mean == (sum as int) / (samples@.len() as int),
                sum <= samples@.len() * 1_024_000_000_000_000,
                1 <= samples@.len() <= 4096,
        ;
    }
    mean as i64
}

/// Integer square root by binary search.
pub fn isqrt(n: u64) -> (r: u64)
    ensures
        is_isqrt(n as int, r as int),
{
    if n == 0 {
        return 0;
    }
    let mut lo: u64 = 0;
    let mut hi: u64 = if n < 4_294_967_295 { n } else { 4_294_967_295 };
    // Invariant: lo*lo <= n < (hi+1)*(hi+1), and hi*hi fits in u64.
    proof {
        assert((n as int) < (4_294_967_295 + 1) * (4_294_967_295 + 1)) by (nonlinear_arith)
            requires
                n <= u64::MAX,
        ;
        if n < 4_294_967_295 {
            assert((n as int) < ((n + 1) * (n + 1)) as int) by (nonlinear_arith)
                requires
                    n >= 1,
            ;
        }
    }
    while lo < hi
        invariant
            lo <= hi <= 4_294_967_295,
            (lo * lo) as int <= n as int,
            (n as int) < ((hi as int) + 1) * ((hi as int) + 1),
        decreases hi - lo,
    {
        let mid = lo + (hi - lo + 1) / 2;
        proof {
            assert((mid * mid) as int <= 4_294_967_295 * 4_294_967_295) by (nonlinear_arith)
                requires
                    0 <= mid <= 4_294_967_295,
            ;
        }
        let sq = mid * mid;
        if sq <= n {
            lo = mid;
        } else {
            hi = mid - 1;
        }
    }
    lo
}

} // verus!
