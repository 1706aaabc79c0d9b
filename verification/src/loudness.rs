//! The loudness estimator: the scaled root-mean-square of a sample frame.
//!
//! Samples are carried in fixed-point micro-units (one millionth of a
//! sample unit), so the root of the mean square is again in micro-units.
//! The estimator scales that root by the fixed constant 1300 and by the
//! configured volume multiplier (in thousandths), divides the fixed-point
//! scale back out, truncates, and saturates into the loudness range.
//! An empty frame has loudness zero.

use vstd::prelude::*;

use vstd::arithmetic::div_mod::lemma_div_nonincreasing;
use vstd::arithmetic::div_mod::lemma_div_pos_is_pos;
use vstd::arithmetic::div_mod::lemma_fundamental_div_mod;
use vstd::arithmetic::div_mod::lemma_fundamental_div_mod_converse;
use vstd::arithmetic::div_mod::lemma_mod_bound;
use vstd::arithmetic::div_mod::lemma_multiply_divide_lt;

verus! {

/// Largest admissible frame length, a machine limit that keeps the sum of
/// squares within the accumulator.
pub const MAX_FRAME_LEN: usize = 10_000_000;

/// Largest admissible sample magnitude in micro-units, a machine limit that
/// keeps the sum of squares within the accumulator. It admits every 32-bit
/// integer sample in micro-units.
pub const MAX_SAMPLE_MAGNITUDE: i64 = 2_200_000_000_000_000;

/// Sum of the squares of a sequence of sample values.
pub open spec fn sum_squares(s: Seq<int>) -> int
    decreases s.len(),
{
    if s.len() == 0 {
        0
    } else {
        sum_squares(s.drop_last()) + s.last() * s.last()
    }
}

/// `r` is the integer square root of `x`.
pub open spec fn is_isqrt(x: int, r: int) -> bool {
    0 <= r && r * r <= x && x < (r + 1) * (r + 1)
}

/// The integer square root: the unique `r` with `r * r <= x < (r+1) * (r+1)`.
pub open spec fn isqrt_of(x: int) -> int {
    choose|r: int| is_isqrt(x, r)
}

/// Law: the integer square root is unique.
pub proof fn lemma_isqrt_unique(x: int, r1: int, r2: int)
    by (nonlinear_arith)
    requires
        is_isqrt(x, r1),
        is_isqrt(x, r2),
    ensures
        r1 == r2,
{
}

/// Law: every non-negative value has an integer square root, so `isqrt_of`
/// satisfies its defining inequalities.
pub proof fn lemma_isqrt_exists(x: int)
    requires
        x >= 0,
    ensures
        is_isqrt(x, isqrt_of(x)),
    decreases x,
{
    if x == 0 {
        assert(is_isqrt(0, 0)) by (nonlinear_arith);
    } else {
        lemma_isqrt_exists(x - 1);
        let r = isqrt_of(x - 1);
        assert(is_isqrt(x - 1, r));
        if (r + 1) * (r + 1) <= x {
            assert(is_isqrt(x, r + 1)) by (nonlinear_arith)
                requires
                    is_isqrt(x - 1, r),
                    (r + 1) * (r + 1) <= x,
            ;
        } else {
            assert(is_isqrt(x, r));
        }
    }
    let w = choose|w: int| is_isqrt(x, w);
    assert(is_isqrt(x, w));
}

/// The loudness of a frame: the truncated scaled RMS, saturated to the
/// loudness range; zero for an empty frame. Samples are in micro-units and
/// the volume multiplier in thousandths, so after scaling by 1300 the
/// combined fixed-point factor of one billion divides back out.
pub open spec fn loudness_of(samples: Seq<int>, vol_multiplier_milli: int) -> int {
    if samples.len() == 0 {
        0
    } else {
        let mean_square = sum_squares(samples) / samples.len() as int;
        let scaled = isqrt_of(mean_square) * 1300 * vol_multiplier_milli / 1_000_000_000;
        if scaled > i32::MAX {
            i32::MAX as int
        } else {
            scaled
        }
    }
}

/// Law: the sum of squares is never negative.
pub proof fn lemma_sum_squares_nonneg(s: Seq<int>)
    ensures
        sum_squares(s) >= 0,
    decreases s.len(),
{
    if s.len() > 0 {
        lemma_sum_squares_nonneg(s.drop_last());
        assert(s.last() * s.last() >= 0) by (nonlinear_arith);
    }
}

/// Law: multiplying every sample by `k` multiplies the sum of squares — and
/// with it the mean square — by exactly `k * k`.
pub proof fn lemma_sum_squares_scales(s: Seq<int>, k: int)
    ensures
        sum_squares(s.map_values(|x: int| k * x)) == k * k * sum_squares(s),
    decreases s.len(),
{
    let scaled = s.map_values(|x: int| k * x);
    if s.len() == 0 {
        assert(scaled.len() == 0);
        assert(k * k * 0 == 0) by (nonlinear_arith);
    } else {
        lemma_sum_squares_scales(s.drop_last(), k);
        assert(scaled.drop_last() =~= s.drop_last().map_values(|x: int| k * x));
        assert(scaled.last() == k * s.last());
        assert((k * s.last()) * (k * s.last()) == k * k * (s.last() * s.last()))
            by (nonlinear_arith);
        assert(k * k * (sum_squares(s.drop_last()) + s.last() * s.last()) == k * k * sum_squares(
            s.drop_last(),
        ) + k * k * (s.last() * s.last())) by (nonlinear_arith);
    }
}

/// Law (loudness scaling): over a non-empty frame, multiplying every sample
/// by `k >= 1` multiplies the pre-root mean square by exactly `k * k`, and
/// therefore scales the root of the mean square — the quantity the loudness
/// is a fixed positive scaling of — by `k`, up to integer truncation.
pub proof fn lemma_loudness_scales(samples: Seq<int>, k: int)
    requires
        samples.len() > 0,
        k >= 1,
    ensures
        sum_squares(samples.map_values(|x: int| k * x)) == k * k * sum_squares(samples),
        k * isqrt_of(sum_squares(samples) / samples.len() as int) <= isqrt_of(
            sum_squares(samples.map_values(|x: int| k * x)) / samples.len() as int,
        ),
        isqrt_of(sum_squares(samples.map_values(|x: int| k * x)) / samples.len() as int) < k * (
        isqrt_of(sum_squares(samples) / samples.len() as int) + 1),
{
    let n = samples.len() as int;
    let s_sum = sum_squares(samples);
    lemma_sum_squares_nonneg(samples);
    lemma_sum_squares_scales(samples, k);
    let m = s_sum / n;
    let rem = s_sum % n;
    lemma_fundamental_div_mod(s_sum, n);
    lemma_mod_bound(s_sum, n);
    let q = (k * k * s_sum) / n;
    let t = (k * k * rem) / n;
    let u = (k * k * rem) % n;
    assert(k * k >= 1 && k * k * rem >= 0 && k * k * s_sum >= 0) by (nonlinear_arith)
        requires
            k >= 1,
            rem >= 0,
            s_sum >= 0,
    ;
    lemma_fundamental_div_mod(k * k * rem, n);
    lemma_mod_bound(k * k * rem, n);
    assert(k * k * s_sum == (k * k * m + t) * n + u) by (nonlinear_arith)
        requires
            s_sum == n * m + rem,
            k * k * rem == n * t + u,
    ;
    lemma_fundamental_div_mod_converse(k * k * s_sum, n, k * k * m + t, u);
    assert(q == k * k * m + t);
    assert(k * k * rem < n * (k * k)) by (nonlinear_arith)
        requires
            0 <= rem < n,
            k * k >= 1,
    ;
    lemma_multiply_divide_lt(k * k * rem, n, k * k);
    assert(t < k * k);
    lemma_div_pos_is_pos(s_sum, n);
    lemma_div_pos_is_pos(k * k * rem, n);
    assert(q >= 0);
    let r = isqrt_of(m);
    let root_q = isqrt_of(q);
    lemma_isqrt_exists(m);
    lemma_isqrt_exists(q);
    assert(r >= 0 && r * r <= m && m < (r + 1) * (r + 1));
    assert(root_q >= 0 && root_q * root_q <= q && q < (root_q + 1) * (root_q + 1));
    assert(k * r <= root_q && root_q < k * (r + 1)) by (nonlinear_arith)
        requires
            k >= 1,
            r >= 0,
            root_q >= 0,
            r * r <= m,
            m < (r + 1) * (r + 1),
            root_q * root_q <= q,
            q < (root_q + 1) * (root_q + 1),
            k * k * m <= q,
            q < k * k * m + k * k,
    ;
    assert(k * k * s_sum == sum_squares(samples.map_values(|x: int| k * x)));
}

/// The integer square root of `x`, by bisection.
fn isqrt(x: u128) -> (r: u64)
    requires
        x < 0x4000_0000_0000_0000_0000_0000_0000_0000u128,
    ensures
        is_isqrt(x as int, r as int),
        r as int == isqrt_of(x as int),
{
    let mut lo: u128 = 0;
    let mut hi: u128 = 0x8000_0000_0000_0000u128;
    while hi - lo > 1
        invariant
            lo < hi <= 0x8000_0000_0000_0000u128,
            lo * lo <= x < hi * hi,
        decreases hi - lo,
    {
        let mid = lo + (hi - lo) / 2;
        proof {
            assert(mid * mid <= 0x8000_0000_0000_0000u128 * 0x8000_0000_0000_0000u128)
                by (nonlinear_arith)
                requires
                    0 <= mid <= 0x8000_0000_0000_0000u128,
            ;
        }
        if mid * mid <= x {
            lo = mid;
        } else {
            hi = mid;
        }
    }
    proof {
        assert(is_isqrt(x as int, lo as int));
        lemma_isqrt_exists(x as int);
        lemma_isqrt_unique(x as int, lo as int, isqrt_of(x as int));
    }
    lo as u64
}

/// The view of a sample frame as a sequence of mathematical integers.
pub open spec fn frame_view(samples: Seq<i64>) -> Seq<int> {
    samples.map_values(|s: i64| s as int)
}

/// Every sample of the frame is within the admissible magnitude.
pub open spec fn frame_bounded(samples: Seq<i64>) -> bool {
    forall|i: int|
        0 <= i < samples.len() ==> -MAX_SAMPLE_MAGNITUDE <= #[trigger] samples[i]
            <= MAX_SAMPLE_MAGNITUDE
}

/// Loudness of one frame of samples in micro-units, under a volume
/// multiplier in thousandths: non-negative, zero on an empty frame, and
/// exactly the truncated scaled RMS elsewhere.
pub fn calculate_loudness(samples: &Vec<i64>, vol_multiplier_milli: u32) -> (loudness: i32)
    requires
        samples@.len() <= MAX_FRAME_LEN,
        frame_bounded(samples@),
    ensures
        loudness == loudness_of(frame_view(samples@), vol_multiplier_milli as int),
        loudness >= 0,
        samples@.len() == 0 ==> loudness == 0,
{
    let n = samples.len();
    if n == 0 {
        return 0;
    }
    let ghost view = frame_view(samples@);
    let mut sum: u128 = 0;
    let mut i: usize = 0;
    while i < n
        invariant
            n == samples@.len() <= MAX_FRAME_LEN,
            frame_bounded(samples@),
            0 <= i <= n,
            view == frame_view(samples@),
            sum == sum_squares(view.take(i as int)),
            sum <= (i as int) * (MAX_SAMPLE_MAGNITUDE as int * MAX_SAMPLE_MAGNITUDE as int),
        decreases n - i,
    {
        let s = samples[i];
        proof {
            assert(s as int * (s as int) <= MAX_SAMPLE_MAGNITUDE as int
                * MAX_SAMPLE_MAGNITUDE as int && s as int * (s as int) >= 0)
                by (nonlinear_arith)
                requires
                    -MAX_SAMPLE_MAGNITUDE <= s <= MAX_SAMPLE_MAGNITUDE,
            ;
            assert(view.take(i + 1).drop_last() =~= view.take(i as int));
            assert(view.take(i + 1).last() == s);
            assert((i as int + 1) * (MAX_SAMPLE_MAGNITUDE as int * MAX_SAMPLE_MAGNITUDE as int)
                == i as int * (MAX_SAMPLE_MAGNITUDE as int * MAX_SAMPLE_MAGNITUDE as int)
                + MAX_SAMPLE_MAGNITUDE as int * MAX_SAMPLE_MAGNITUDE as int)
                by (nonlinear_arith);
            assert((i as int + 1) * (MAX_SAMPLE_MAGNITUDE as int * MAX_SAMPLE_MAGNITUDE as int)
                <= (MAX_FRAME_LEN as int) * (MAX_SAMPLE_MAGNITUDE as int
                * MAX_SAMPLE_MAGNITUDE as int)) by (nonlinear_arith)
                requires
                    0 <= i as int + 1 <= MAX_FRAME_LEN as int,
            ;
        }
        let sq: u128 = (s as i128 * s as i128) as u128;
        sum = sum + sq;
        i = i + 1;
    }
    proof {
        assert(view.take(n as int) =~= view);
        assert(sum <= (MAX_FRAME_LEN as int) * (MAX_SAMPLE_MAGNITUDE as int
            * MAX_SAMPLE_MAGNITUDE as int)) by (nonlinear_arith)
            requires
                sum <= (n as int) * (MAX_SAMPLE_MAGNITUDE as int * MAX_SAMPLE_MAGNITUDE as int),
                0 <= n as int <= MAX_FRAME_LEN as int,
        ;
    }
    let mean_square: u128 = sum / (n as u128);
    proof {
        lemma_div_nonincreasing(sum as int, n as int);
        assert(mean_square < 0x4000_0000_0000_0000_0000_0000_0000_0000u128);
    }
    let rms_micro: u64 = isqrt(mean_square);
    proof {
        assert(rms_micro as int * (rms_micro as int) <= mean_square as int);
        assert(rms_micro as int <= 0x8000_0000_0000_0000) by (nonlinear_arith)
            requires
                rms_micro as int * (rms_micro as int) <= mean_square as int,
                mean_square < 0x4000_0000_0000_0000_0000_0000_0000_0000u128,
                rms_micro >= 0,
        ;
        assert(rms_micro as int * 1300 * (vol_multiplier_milli as int)
            <= 0x8000_0000_0000_0000i128 * 1300 * 0x1_0000_0000i128) by (nonlinear_arith)
            requires
                0 <= rms_micro as int <= 0x8000_0000_0000_0000,
                0 <= vol_multiplier_milli as int <= 0x1_0000_0000,
        ;
    }
    let scaled: u128 = (rms_micro as u128) * 1300 * (vol_multiplier_milli as u128)
        / 1_000_000_000;
    if scaled > (i32::MAX as u128) {
        i32::MAX
    } else {
        scaled as i32
    }
}

} // verus!
