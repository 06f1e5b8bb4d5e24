//! The statistical outlier detector: mean, population variance and
//! standard deviation over a numeric sample, flagging points beyond a
//! configurable sigma multiplier.
//!
//! All arithmetic is exact. With samples `x_0 .. x_{n-1}`, sum `S` and
//! deviation terms `d_i = n*x_i - S`, the mean is `S/n`, the population
//! variance (divide by `n`, not `n - 1`) is `sum(d_i^2) / n^3`, and
//! `|x_i - mean| >= k * std_dev` holds exactly when
//! `100 * n * d_i^2 >= k10^2 * sum(d_j^2)`, where `k10` is the sigma
//! multiplier in tenths. A sample is flagged when its deviation reaches
//! the `k * std_dev` bound and is not zero; a constant sequence
//! therefore never flags anything.

use vstd::prelude::*;

use crate::dec::spec_digits;
use crate::dec::dec_u64;

verus! {

/// Samples per invocation the exact arithmetic accepts.
pub const MAX_SAMPLES: usize = 100000;

/// Largest sample magnitude the exact arithmetic accepts.
pub const SAMPLE_LIMIT: i64 = 1000000000;

/// Largest sigma multiplier, in tenths (ten sigma).
pub const MAX_SIGMA_TENTHS: u32 = 100;

/// The default sigma multiplier, in tenths: two standard deviations.
pub const DEFAULT_SIGMA_TENTHS: u32 = 20;

/// The outcome of one detector invocation. `confidence` is in
/// hundredths: 80 when anomalies were found, 90 otherwise — a coarse
/// fixed value, not a continuous function of magnitude.
pub struct AnomalyDetectionResult {
    pub is_anomaly: bool,
    pub confidence: u32,
    pub explanation: String,
    pub outlier_count: usize,
}

/// The detector's one failure: a sample sequence with zero elements,
/// rejected loudly so that a division by zero can never be reached.
#[derive(Clone, Copy, PartialEq, Eq, Structural, Debug)]
pub struct EmptyInputError;

/// The sum of the samples.
pub open spec fn spec_sum(s: Seq<i64>) -> int
    decreases s.len(),
{
    if s.len() == 0 {
        0
    } else {
        spec_sum(s.drop_last()) + s.last()
    }
}

/// The deviation term of sample `i`, scaled by the sample count:
/// `n * x_i - S`, which is `n * (x_i - mean)`.
pub open spec fn spec_dev(s: Seq<i64>, i: int) -> int {
    s.len() * s[i] - spec_sum(s)
}

/// The sum of the squared deviation terms of the first `k` samples.
pub open spec fn spec_sq_partial(s: Seq<i64>, k: int) -> int
    decreases k,
{
    if k <= 0 {
        0
    } else {
        spec_sq_partial(s, k - 1) + spec_dev(s, k - 1) * spec_dev(s, k - 1)
    }
}

/// The sum of all squared deviation terms.
pub open spec fn spec_sumsq(s: Seq<i64>) -> int {
    spec_sq_partial(s, s.len() as int)
}

/// Sample `i` is flagged: its deviation from the mean is non-zero and
/// reaches `k * std_dev`, with the sigma multiplier `k` given in
/// tenths.
pub open spec fn spec_flagged(s: Seq<i64>, sigma_tenths: u32, i: int) -> bool {
    &&& spec_dev(s, i) != 0
    &&& 100 * s.len() * (spec_dev(s, i) * spec_dev(s, i)) >= sigma_tenths * sigma_tenths
        * spec_sumsq(s)
}

/// How many of the first `k` samples are flagged.
pub open spec fn spec_flag_count(s: Seq<i64>, sigma_tenths: u32, k: int) -> nat
    decreases k,
{
    if k <= 0 {
        0
    } else {
        spec_flag_count(s, sigma_tenths, k - 1) + if spec_flagged(s, sigma_tenths, k - 1) {
            1nat
        } else {
            0nat
        }
    }
}

/// At least one sample is flagged.
pub open spec fn spec_anomaly(s: Seq<i64>, sigma_tenths: u32) -> bool {
    exists|i: int| 0 <= i < s.len() && spec_flagged(s, sigma_tenths, i)
}

/// The sigma multiplier rendered in decimal: whole sigmas plainly,
/// fractional ones with one digit after the point.
pub open spec fn spec_sigma_text(sigma_tenths: u32) -> Seq<char> {
    if sigma_tenths % 10 == 0 {
        spec_digits((sigma_tenths / 10) as nat)
    } else {
        spec_digits((sigma_tenths / 10) as nat) + "."@ + spec_digits((sigma_tenths % 10) as nat)
    }
}

/// The explanation the detector reports.
pub open spec fn spec_explanation(s: Seq<i64>, sigma_tenths: u32) -> Seq<char> {
    if spec_anomaly(s, sigma_tenths) {
        "Found "@ + spec_digits(spec_flag_count(s, sigma_tenths, s.len() as int)) + " data points outside "@
            + spec_sigma_text(sigma_tenths) + " standard deviations"@
    } else {
        "No anomalies detected"@
    }
}

/// The sum of a bounded sample sequence is itself bounded.
proof fn lemma_sum_bound(s: Seq<i64>)
    requires
        forall|i: int| 0 <= i < s.len() ==> -SAMPLE_LIMIT <= #[trigger] s[i] <= SAMPLE_LIMIT,
    ensures
        -(s.len() * SAMPLE_LIMIT) <= spec_sum(s) <= s.len() * SAMPLE_LIMIT,
    decreases s.len(),
{
    if s.len() > 0 {
        lemma_sum_bound(s.drop_last());
        assert(forall|i: int|
            0 <= i < s.drop_last().len() ==> s.drop_last()[i] == #[trigger] s[i]);
        assert((s.len() - 1) * SAMPLE_LIMIT + SAMPLE_LIMIT == s.len() * SAMPLE_LIMIT) by (nonlinear_arith);
    }
}

/// A constant sequence sums to its length times the constant.
proof fn lemma_sum_constant(s: Seq<i64>, c: i64)
    requires
        forall|i: int| 0 <= i < s.len() ==> #[trigger] s[i] == c,
    ensures
        spec_sum(s) == s.len() * c,
    decreases s.len(),
{
    if s.len() == 0 {
        assert(0 * c == 0) by (nonlinear_arith);
    } else {
        lemma_sum_constant(s.drop_last(), c);
        assert((s.len() - 1) * c + c == s.len() * c) by (nonlinear_arith);
    }
}

/// On a constant sequence every deviation is zero, so no sample is
/// flagged and no anomaly is reported: the standard deviation is zero
/// and no deviation exceeds the threshold.
pub proof fn lemma_constant_sequence_no_anomaly(s: Seq<i64>, sigma_tenths: u32, c: i64)
    requires
        forall|i: int| 0 <= i < s.len() ==> #[trigger] s[i] == c,
    ensures
        forall|i: int| 0 <= i < s.len() ==> !spec_flagged(s, sigma_tenths, i),
        !spec_anomaly(s, sigma_tenths),
{
    lemma_sum_constant(s, c);
    assert forall|i: int| 0 <= i < s.len() implies !spec_flagged(s, sigma_tenths, i) by {
        assert(s[i] == c);
        assert(spec_dev(s, i) == s.len() * c - s.len() * c);
    }
}

/// Runs the detector with the default sigma multiplier of two standard
/// deviations.
pub fn detect_outliers(samples: &Vec<i64>) -> (r: Result<AnomalyDetectionResult, EmptyInputError>)
    requires
        samples@.len() <= MAX_SAMPLES,
        forall|i: int|
            0 <= i < samples@.len() ==> -SAMPLE_LIMIT <= #[trigger] samples@[i] <= SAMPLE_LIMIT,
    ensures
        r is Err <==> samples@.len() == 0,
        r is Ok ==> r->Ok_0.is_anomaly == spec_anomaly(samples@, DEFAULT_SIGMA_TENTHS),
        r is Ok ==> r->Ok_0.outlier_count == spec_flag_count(
            samples@,
            DEFAULT_SIGMA_TENTHS,
            samples@.len() as int,
        ),
        r is Ok ==> r->Ok_0.confidence == (if spec_anomaly(samples@, DEFAULT_SIGMA_TENTHS) {
            80u32
        } else {
            90u32
        }),
        r is Ok ==> r->Ok_0.explanation@ == spec_explanation(samples@, DEFAULT_SIGMA_TENTHS),
{
    detect_outliers_with(samples, DEFAULT_SIGMA_TENTHS)
}

/// Runs the detector: flags every sample whose absolute deviation from
/// the arithmetic mean reaches `sigma_tenths / 10` standard deviations,
/// where the standard deviation is the square root of the population
/// variance. Fails only on an empty sample sequence.
pub fn detect_outliers_with(samples: &Vec<i64>, sigma_tenths: u32) -> (r: Result<
    AnomalyDetectionResult,
    EmptyInputError,
>)
    requires
        samples@.len() <= MAX_SAMPLES,
        forall|i: int|
            0 <= i < samples@.len() ==> -SAMPLE_LIMIT <= #[trigger] samples@[i] <= SAMPLE_LIMIT,
        sigma_tenths <= MAX_SIGMA_TENTHS,
    ensures
        r is Err <==> samples@.len() == 0,
        r is Ok ==> r->Ok_0.is_anomaly == spec_anomaly(samples@, sigma_tenths),
        r is Ok ==> r->Ok_0.outlier_count == spec_flag_count(
            samples@,
            sigma_tenths,
            samples@.len() as int,
        ),
        r is Ok ==> r->Ok_0.confidence == (if spec_anomaly(samples@, sigma_tenths) {
            80u32
        } else {
            90u32
        }),
        r is Ok ==> r->Ok_0.explanation@ == spec_explanation(samples@, sigma_tenths),
{
    let ghost s = samples@;
    let n = samples.len();
    if n == 0 {
        return Err(EmptyInputError);
    }
    let nn: i128 = n as i128;

    // The sample sum.
    let mut sum: i128 = 0;
    let mut i: usize = 0;
    while i < n
        invariant
            n == s.len(),
            s == samples@,
            n <= MAX_SAMPLES,
            forall|j: int| 0 <= j < s.len() ==> -SAMPLE_LIMIT <= #[trigger] s[j] <= SAMPLE_LIMIT,
            i <= n,
            sum == spec_sum(s.subrange(0, i as int)),
            -(i * SAMPLE_LIMIT) <= sum <= i * SAMPLE_LIMIT,
        decreases n - i,
    {
        let x: i128 = samples[i] as i128;
        sum = sum + x;
        i = i + 1;
        proof {
            assert(s.subrange(0, i as int).drop_last() =~= s.subrange(0, i as int - 1));
            assert(s.subrange(0, i as int).last() == s[i as int - 1]);
        }
    }
    proof {
        assert(s.subrange(0, n as int) =~= s);
    }

    // The sum of squared deviation terms.
    let mut sumsq: i128 = 0;
    i = 0;
    while i < n
        invariant
            n == s.len(),
            s == samples@,
            n <= MAX_SAMPLES,
            forall|j: int| 0 <= j < s.len() ==> -SAMPLE_LIMIT <= #[trigger] s[j] <= SAMPLE_LIMIT,
            nn == n as i128,
            sum == spec_sum(s),
            -(n * SAMPLE_LIMIT) <= sum <= n * SAMPLE_LIMIT,
            i <= n,
            sumsq == spec_sq_partial(s, i as int),
            0 <= sumsq <= i * 40000000000000000000000000000,
        decreases n - i,
    {
        let x: i128 = samples[i] as i128;
        proof {
            assert(-100000000000000 <= nn * x <= 100000000000000) by (nonlinear_arith)
                requires
                    0 <= nn <= 100000,
                    -1000000000 <= x <= 1000000000,
            ;
        }
        let d: i128 = nn * x - sum;
        proof {
            assert(0 <= d * d <= 40000000000000000000000000000) by (nonlinear_arith)
                requires
                    -200000000000000 <= d <= 200000000000000,
            ;
        }
        let dsq: i128 = d * d;
        sumsq = sumsq + dsq;
        i = i + 1;
    }

    // Flag the samples whose deviation reaches the sigma bound.
    let st: i128 = sigma_tenths as i128;
    proof {
        assert(0 <= st * st <= 10000) by (nonlinear_arith)
            requires
                0 <= st <= 100,
        ;
    }
    let kk: i128 = st * st;
    proof {
        assert(kk * sumsq <= 40000000000000000000000000000000000000
            && 0 <= kk * sumsq) by (nonlinear_arith)
            requires
                0 <= kk <= 10000,
                0 <= sumsq <= 4000000000000000000000000000000000,
        ;
    }
    let rhs: i128 = kk * sumsq;
    let mut count: usize = 0;
    let mut found: bool = false;
    i = 0;
    while i < n
        invariant
            n == s.len(),
            s == samples@,
            n <= MAX_SAMPLES,
            forall|j: int| 0 <= j < s.len() ==> -SAMPLE_LIMIT <= #[trigger] s[j] <= SAMPLE_LIMIT,
            nn == n as i128,
            sum == spec_sum(s),
            -(n * SAMPLE_LIMIT) <= sum <= n * SAMPLE_LIMIT,
            sumsq == spec_sumsq(s),
            rhs == sigma_tenths * sigma_tenths * spec_sumsq(s),
            i <= n,
            count == spec_flag_count(s, sigma_tenths, i as int),
            count <= i,
            found == exists|j: int| 0 <= j < i && spec_flagged(s, sigma_tenths, j),
        decreases n - i,
    {
        let x: i128 = samples[i] as i128;
        proof {
            assert(-100000000000000 <= nn * x <= 100000000000000) by (nonlinear_arith)
                requires
                    0 <= nn <= 100000,
                    -1000000000 <= x <= 1000000000,
            ;
        }
        let d: i128 = nn * x - sum;
        proof {
            assert(0 <= d * d <= 40000000000000000000000000000) by (nonlinear_arith)
                requires
                    -200000000000000 <= d <= 200000000000000,
            ;
        }
        let dsq: i128 = d * d;
        proof {
            assert(0 <= (100 * nn) * dsq <= 400000000000000000000000000000000000)
                by (nonlinear_arith)
                requires
                    0 <= 100 * nn <= 10000000,
                    0 <= dsq <= 40000000000000000000000000000,
            ;
        }
        let lhs: i128 = (100 * nn) * dsq;
        let flagged = d != 0 && lhs >= rhs;
        proof {
            assert(flagged == spec_flagged(s, sigma_tenths, i as int));
        }
        if flagged {
            count = count + 1;
            found = true;
        }
        i = i + 1;
        proof {
            if found && !exists|j: int| 0 <= j < i && spec_flagged(s, sigma_tenths, j) {
                assert(false);
            }
        }
    }

    let confidence: u32 = if found {
        80
    } else {
        90
    };
    let explanation: String = if found {
        let mut e = "Found ".to_owned();
        let digits = dec_u64(count as u64);
        e.append(digits.as_str());
        e.append(" data points outside ");
        let whole = dec_u64((sigma_tenths / 10) as u64);
        e.append(whole.as_str());
        if sigma_tenths % 10 != 0 {
            e.append(".");
            let frac = dec_u64((sigma_tenths % 10) as u64);
            e.append(frac.as_str());
        }
        e.append(" standard deviations");
        e
    } else {
        "No anomalies detected".to_owned()
    };
    proof {
        assert(explanation@ =~= spec_explanation(s, sigma_tenths));
    }
    Ok(
        AnomalyDetectionResult {
            is_anomaly: found,
            confidence,
            explanation,
            outlier_count: count,
        },
    )
}

} // verus!
