//! Metrics derived from the optical channels, computed exactly over
//! integer sums.
use vstd::prelude::*;
use crate::device::{EegResolution, Fraction};

verus! {

/// The fewest readings per channel for a blood-oxygen estimate.
pub const SPO2_MIN_SAMPLES: usize = 32;

/// The fewest readings per channel for a hemodynamic estimate.
pub const FNIRS_MIN_SAMPLES: usize = 64;

/// The longest series that the exact metrics accept; it keeps every
/// intermediate product within 128 bits.
pub const MAX_SERIES_LEN: usize = 0xFFFF_FFFF;

/// The sum of a series.
pub open spec fn seq_sum(s: Seq<i32>) -> int
    decreases s.len(),
{
    if s.len() == 0 {
        0
    } else {
        seq_sum(s.drop_last()) + s.last()
    }
}

/// Blood-oxygen estimate `110 - 25 * (red_mean / ir_mean)`, clamped to
/// `[0, 100]`. Over common denominators the unclamped value is
/// `(110 * |red| * ir_sum - 25 * red_sum * |ir|) / (|red| * ir_sum)`.
/// It is undefined when a series is shorter than the minimum or a mean is
/// not positive (a mean of a non-empty series is positive exactly when its
/// sum is).
pub open spec fn spo2_spec(ir: Seq<i32>, red: Seq<i32>) -> Option<Fraction> {
    if ir.len() < SPO2_MIN_SAMPLES || red.len() < SPO2_MIN_SAMPLES {
        None
    } else if seq_sum(ir) <= 0 || seq_sum(red) <= 0 {
        None
    } else {
        let num = 110 * red.len() * seq_sum(ir) - 25 * seq_sum(red) * ir.len();
        let den = red.len() * seq_sum(ir);
        if num < 0 {
            Some(Fraction { num: 0, den: 1 })
        } else if num > 100 * den {
            Some(Fraction { num: 100, den: 1 })
        } else {
            Some(Fraction { num: num as i128, den: den as i128 })
        }
    }
}

proof fn lemma_sum_step(s: Seq<i32>, i: int)
    requires
        0 <= i < s.len(),
    ensures
        seq_sum(s.take(i + 1)) == seq_sum(s.take(i)) + s[i],
{
    assert(s.take(i + 1).drop_last() =~= s.take(i));
}

/// The sum of a series, in 128 bits.
pub fn series_sum(s: &Vec<i32>) -> (r: i128)
    requires
        s@.len() <= MAX_SERIES_LEN,
    ensures
        r == seq_sum(s@),
        -(s@.len() as int) * 0x8000_0000 <= r <= s@.len() * 0x8000_0000,
{
    let mut sum: i128 = 0;
    let mut i: usize = 0;
    while i < s.len()
        invariant
            i <= s@.len() <= MAX_SERIES_LEN,
            sum == seq_sum(s@.take(i as int)),
            -(i as int) * 0x8000_0000 <= sum <= i * 0x8000_0000,
        decreases s@.len() - i,
    {
        proof {
            lemma_sum_step(s@, i as int);
        }
        sum = sum + s[i] as i128;
        i = i + 1;
    }
    assert(s@.take(s@.len() as int) =~= s@);
    sum
}

/// Blood-oxygen estimate from the infrared and red series.
pub fn calculate_spo2(ppg_ir: &Vec<i32>, ppg_red: &Vec<i32>) -> (r: Option<Fraction>)
    requires
        ppg_ir@.len() <= MAX_SERIES_LEN,
        ppg_red@.len() <= MAX_SERIES_LEN,
    ensures
        r == spo2_spec(ppg_ir@, ppg_red@),
{
    if ppg_ir.len() < SPO2_MIN_SAMPLES || ppg_red.len() < SPO2_MIN_SAMPLES {
        return None;
    }
    let ir_sum = series_sum(ppg_ir);
    let red_sum = series_sum(ppg_red);
    if ir_sum <= 0 || red_sum <= 0 {
        return None;
    }
    let ir_len = ppg_ir.len() as i128;
    let red_len = ppg_red.len() as i128;
    assert(0 < red_len * ir_sum <= 0x1_0000_0000 * 0x100_0000_0000_0000_0000) by (nonlinear_arith)
        requires
            0 < red_len <= 0x1_0000_0000,
            0 < ir_sum <= 0x100_0000_0000_0000_0000,
    ;
    assert(0 < ir_len * red_sum <= 0x1_0000_0000 * 0x100_0000_0000_0000_0000) by (nonlinear_arith)
        requires
            0 < ir_len <= 0x1_0000_0000,
            0 < red_sum <= 0x100_0000_0000_0000_0000,
    ;
    let den = red_len * ir_sum;
    let num = 110 * den - 25 * (red_sum * ir_len);
    assert(num == 110 * ppg_red@.len() * seq_sum(ppg_ir@) - 25 * seq_sum(ppg_red@)
        * ppg_ir@.len()) by (nonlinear_arith)
        requires
            num == 110 * (red_len * ir_sum) - 25 * (red_sum * ir_len),
            red_len == ppg_red@.len(),
            ir_len == ppg_ir@.len(),
            ir_sum == seq_sum(ppg_ir@),
            red_sum == seq_sum(ppg_red@),
    ;
    if num < 0 {
        Some(Fraction { num: 0, den: 1 })
    } else if num > 100 * den {
        Some(Fraction { num: 100, den: 1 })
    } else {
        Some(Fraction { num, den })
    }
}

/// The fewest samples for which signal quality is estimated at all.
pub const QUALITY_MIN_SAMPLES: usize = 32;

/// The sum of the squares of a series.
pub open spec fn seq_sum_sq(s: Seq<i32>) -> int
    decreases s.len(),
{
    if s.len() == 0 {
        0
    } else {
        seq_sum_sq(s.drop_last()) + s.last() * s.last()
    }
}

/// `n^2` times the population variance of a series of `n` counts.
pub open spec fn scaled_variance(s: Seq<i32>) -> int {
    s.len() * seq_sum_sq(s) - seq_sum(s) * seq_sum(s)
}

/// Signal quality from the population standard deviation of EEG counts,
/// taken in microvolts: 0 below 1 µV, 50 below 10 µV, 100 otherwise;
/// series shorter than the minimum report 100. With counts scaled by
/// `num / den`, the variance in µV² is
/// `scaled_variance * num^2 / (n^2 * den^2)`, and the deviation is below
/// `t` exactly when that variance is below `t^2`.
pub open spec fn spec_fallback_quality(s: Seq<i32>, scale: Fraction) -> u32 {
    let n = s.len();
    let v = scaled_variance(s) * (scale.num * scale.num);
    let unit = n * n * (scale.den * scale.den);
    if n < QUALITY_MIN_SAMPLES {
        100
    } else if v < unit {
        0
    } else if v < 100 * unit {
        50
    } else {
        100
    }
}

proof fn lemma_sum_sq_step(s: Seq<i32>, i: int)
    requires
        0 <= i < s.len(),
    ensures
        seq_sum_sq(s.take(i + 1)) == seq_sum_sq(s.take(i)) + s[i] * s[i],
{
    assert(s.take(i + 1).drop_last() =~= s.take(i));
}

/// The sum of the squares of a series, in 128 bits.
fn series_sum_sq(s: &Vec<i32>) -> (r: i128)
    requires
        s@.len() <= MAX_SERIES_LEN,
    ensures
        r == seq_sum_sq(s@),
        0 <= r <= s@.len() * 0x4000_0000_0000_0000,
{
    let mut sum: i128 = 0;
    let mut i: usize = 0;
    while i < s.len()
        invariant
            i <= s@.len() <= MAX_SERIES_LEN,
            sum == seq_sum_sq(s@.take(i as int)),
            0 <= sum <= i * 0x4000_0000_0000_0000,
        decreases s@.len() - i,
    {
        proof {
            lemma_sum_step(s@, i as int);
            lemma_sum_sq_step(s@, i as int);
        }
        let x = s[i] as i128;
        assert(0 <= x * x <= 0x4000_0000_0000_0000) by (nonlinear_arith)
            requires
                -0x8000_0000 <= x <= 0x7FFF_FFFF,
        ;
        sum = sum + x * x;
        i = i + 1;
    }
    assert(s@.take(s@.len() as int) =~= s@);
    sum
}

/// Whether `v * a < k`, for `a > 0`, decided without forming `v * a`.
fn product_below(v: i128, a: i128, k: i128) -> (r: bool)
    requires
        a > 0,
        k > 0,
    ensures
        r == (v * a < k),
{
    if v <= 0 {
        assert(v * a <= 0) by (nonlinear_arith)
            requires
                v <= 0,
                a > 0,
        ;
        return true;
    }
    let q = (k - 1) / a;
    proof {
        vstd::arithmetic::div_mod::lemma_fundamental_div_mod((k - 1) as int, a as int);
        vstd::arithmetic::div_mod::lemma_mod_bound((k - 1) as int, a as int);
        let km1: int = k - 1;
        let ai: int = a as int;
        let rem: int = km1 % ai;
        assert(q == km1 / ai);
        assert((v <= q) == (v * a < k)) by (nonlinear_arith)
            requires
                ai == a,
                ai > 0,
                km1 == k - 1,
                km1 == ai * q + rem,
                0 <= rem < ai,
        ;
    }
    v <= q
}

/// Signal quality of a series of EEG counts of the given resolution, for
/// when no external estimate is available.
pub fn fallback_signal_quality(samples: &Vec<i32>, resolution: EegResolution) -> (r: u32)
    requires
        samples@.len() <= MAX_SERIES_LEN,
    ensures
        r == spec_fallback_quality(samples@, resolution.spec_scale_factor()),
{
    if samples.len() < QUALITY_MIN_SAMPLES {
        return 100;
    }
    let scale = resolution.scale_factor();
    let n = samples.len() as i128;
    let total = series_sum(samples);
    let total_sq = series_sum_sq(samples);
    assert(0 <= n * total_sq <= 0x1_0000_0000 * (0x1_0000_0000 * 0x4000_0000_0000_0000))
        by (nonlinear_arith)
        requires
            0 <= n <= 0x1_0000_0000,
            0 <= total_sq <= n * 0x4000_0000_0000_0000,
    ;
    assert(0 <= total * total <= (0x1_0000_0000 * 0x8000_0000) * (0x1_0000_0000 * 0x8000_0000))
        by (nonlinear_arith)
        requires
            -(n * 0x8000_0000) <= total <= n * 0x8000_0000,
            0 <= n <= 0x1_0000_0000,
    ;
    let prod = n * total_sq;
    assert(-0x8000_0000_0000_0000 <= total <= 0x8000_0000_0000_0000) by (nonlinear_arith)
        requires
            -(n * 0x8000_0000) <= total <= n * 0x8000_0000,
            0 <= n <= 0x1_0000_0000,
    ;
    assert(0 <= total * total <= 0x8000_0000_0000_0000 * 0x8000_0000_0000_0000)
        by (nonlinear_arith)
        requires
            -0x8000_0000_0000_0000 <= total <= 0x8000_0000_0000_0000,
    ;
    let square = total * total;
    let v = prod - square;
    let a = scale.num * scale.num;
    assert(0 < n * n <= 0x1_0000_0000_0000_0000) by (nonlinear_arith)
        requires
            0 < n <= 0x1_0000_0000,
    ;
    let nn = n * n;
    let dd = scale.den * scale.den;
    assert(0 < nn * dd <= 0x40_0000_0000_0000_0000_0000) by (nonlinear_arith)
        requires
            0 < nn <= 0x1_0000_0000_0000_0000,
            0 < dd <= 0x40_0000,
    ;
    let unit = nn * dd;
    assert(v * a == scaled_variance(samples@) * (scale.num * scale.num));
    if product_below(v, a, unit) {
        0
    } else if product_below(v, a, 100 * unit) {
        50
    } else {
        100
    }
}

/// The hemodynamic estimate applies: every series has at least the minimum
/// number of readings and a positive mean.
pub open spec fn spec_fnirs_inputs_valid(ir: Seq<i32>, nir: Seq<i32>, red: Seq<i32>) -> bool {
    &&& ir.len() >= FNIRS_MIN_SAMPLES
    &&& nir.len() >= FNIRS_MIN_SAMPLES
    &&& red.len() >= FNIRS_MIN_SAMPLES
    &&& seq_sum(ir) > 0
    &&& seq_sum(nir) > 0
    &&& seq_sum(red) > 0
}

/// Whether the hemodynamic estimate applies to these optical series.
pub fn fnirs_inputs_valid(ppg_ir: &Vec<i32>, ppg_nir: &Vec<i32>, ppg_red: &Vec<i32>) -> (r: bool)
    requires
        ppg_ir@.len() <= MAX_SERIES_LEN,
        ppg_nir@.len() <= MAX_SERIES_LEN,
        ppg_red@.len() <= MAX_SERIES_LEN,
    ensures
        r == spec_fnirs_inputs_valid(ppg_ir@, ppg_nir@, ppg_red@),
{
    if ppg_ir.len() < FNIRS_MIN_SAMPLES || ppg_nir.len() < FNIRS_MIN_SAMPLES || ppg_red.len()
        < FNIRS_MIN_SAMPLES {
        return false;
    }
    series_sum(ppg_ir) > 0 && series_sum(ppg_nir) > 0 && series_sum(ppg_red) > 0
}

} // verus!
