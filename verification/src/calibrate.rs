//! The throughput calibrator: a small fixed sample of candidate generations
//! is timed on a single lane, and from the measured rate the expected
//! best-case, average-case and very-likely completion times for a pattern of
//! a given length are projected. All rates and durations are whole numbers
//! (keys per second, seconds), saturated at their type's maximum.

use vstd::prelude::*;
use vstd::arithmetic::div_mod::lemma_div_is_ordered_by_denominator;
use vstd::arithmetic::mul::lemma_mul_inequality;

use crate::clock::{clock_now, nanos_since};
use crate::config::{mode_valid, GenerationMode};
use crate::keys::generate;

verus! {

/// How many candidates a calibration run generates.
pub const CALIBRATION_SAMPLE: u64 = 1000;

/// The projected search statistics: the measured single-lane generation rate
/// (keys per second, at least 1), the combined rate of all lanes, and the
/// best-case, average-case and very-likely (five times the average, a
/// deliberately loose heuristic bound, not a computed quantile) completion
/// times in whole seconds.
pub struct CalibrationReport {
    pub per_lane_rate: u64,
    pub total_rate: u128,
    pub pattern_length: u32,
    pub best_case_secs: u64,
    pub average_case_secs: u64,
    pub p_high_case_secs: u64,
}

/// 58 to the power `n`: the number of addresses over a pattern position
/// alphabet of 58 characters.
pub open spec fn pow58(n: nat) -> nat
    decreases n,
{
    if n == 0 {
        1nat
    } else {
        58 * pow58((n - 1) as nat)
    }
}

/// 58 to the power `n`, saturated at u128::MAX: what the calibrator can
/// represent of the search space.
pub open spec fn capped_pow58(n: nat) -> nat {
    if pow58(n) > u128::MAX {
        u128::MAX as nat
    } else {
        pow58(n)
    }
}

pub proof fn lemma_pow58_pos(n: nat)
    ensures
        pow58(n) >= 1,
    decreases n,
{
    if n > 0 {
        lemma_pow58_pos((n - 1) as nat);
    }
}

/// The measured single-lane rate in keys per second: the sample size over
/// the elapsed time, clamped below at 1 so later divisions are defined.
pub open spec fn rate_from_sample(sample: u64, elapsed_nanos: u64) -> int {
    let e: int = if elapsed_nanos == 0 {
        1
    } else {
        elapsed_nanos as int
    };
    let q: int = (sample as int * 1_000_000_000) / e;
    if q == 0 {
        1
    } else {
        q
    }
}

/// A duration in whole seconds, saturated at u64::MAX.
pub open spec fn capped_secs(x: int) -> int {
    if x > u64::MAX {
        u64::MAX as int
    } else {
        x
    }
}

/// What a report computed from the given measurement says: the per-lane
/// rate comes from the sample, the total rate is the per-lane rate times the
/// lane count, the average case is the (saturated) search space over the
/// total rate, the best case is a single attempt, and the very-likely bound
/// is five times the average.
pub open spec fn report_ok(
    r: CalibrationReport,
    sample: u64,
    elapsed_nanos: u64,
    lanes: u32,
    pattern_length: u32,
) -> bool {
    &&& r.per_lane_rate == rate_from_sample(sample, elapsed_nanos)
    &&& r.total_rate == r.per_lane_rate as int * lanes as int
    &&& r.pattern_length == pattern_length
    &&& r.best_case_secs == 1int / (r.total_rate as int)
    &&& r.average_case_secs == capped_secs(
        capped_pow58(pattern_length as nat) as int / (r.total_rate as int),
    )
    &&& r.p_high_case_secs == capped_secs(
        5 * (capped_pow58(pattern_length as nat) as int / (r.total_rate as int)),
    )
}

/// Computes 58 to the power `n`, saturated at u128::MAX.
pub fn pow58_capped(n: u32) -> (r: u128)
    ensures
        r as nat == capped_pow58(n as nat),
{
    let mut r: u128 = 1;
    let mut i: u32 = 0;
    while i < n
        invariant
            i <= n,
            r as nat == capped_pow58(i as nat),
        decreases n - i,
    {
        proof {
            lemma_pow58_pos(i as nat);
            assert(pow58((i + 1) as nat) == 58 * pow58(i as nat));
        }
        match r.checked_mul(58) {
            Some(v) => {
                r = v;
            },
            None => {
                r = u128::MAX;
            },
        }
        i += 1;
    }
    r
}

/// Turns one timed measurement into a full report. The measurement (the
/// elapsed time of `sample` single-lane generations) is this function's
/// input, so the projection itself is deterministic and exact.
pub fn build_report(sample: u64, elapsed_nanos: u64, lanes: u32, pattern_length: u32) -> (r:
    CalibrationReport)
    requires
        1 <= sample,
        sample * 1_000_000_000 <= u64::MAX,
        lanes >= 1,
    ensures
        report_ok(r, sample, elapsed_nanos, lanes, pattern_length),
{
    let e: u64 = if elapsed_nanos == 0 {
        1
    } else {
        elapsed_nanos
    };
    let q: u64 = (sample * 1_000_000_000) / e;
    let per_lane_rate: u64 = if q == 0 {
        1
    } else {
        q
    };
    proof {
        assert(per_lane_rate as int * lanes as int <= u64::MAX as int * u32::MAX as int) by {
            lemma_mul_inequality(per_lane_rate as int, u64::MAX as int, lanes as int);
            lemma_mul_inequality(lanes as int, u32::MAX as int, u64::MAX as int);
        }
        assert(per_lane_rate as int * lanes as int >= 1) by (nonlinear_arith)
            requires
                per_lane_rate >= 1,
                lanes >= 1,
        ;
    }
    let total_rate: u128 = (per_lane_rate as u128) * (lanes as u128);
    let space: u128 = pow58_capped(pattern_length);
    let avg: u128 = space / total_rate;
    let average_case_secs: u64 = if avg > u64::MAX as u128 {
        u64::MAX
    } else {
        avg as u64
    };
    let p_high_case_secs: u64 = if avg > (u64::MAX / 5) as u128 {
        u64::MAX
    } else {
        (5 * avg) as u64
    };
    let best_case_secs: u64 = if total_rate == 1 {
        1
    } else {
        0
    };
    proof {
        if total_rate == 1 {
            assert(1int / (total_rate as int) == 1) by (nonlinear_arith)
                requires
                    total_rate as int == 1,
            ;
        } else {
            assert(1int / (total_rate as int) == 0) by (nonlinear_arith)
                requires
                    total_rate as int >= 2,
            ;
        }
    }
    let r = CalibrationReport {
        per_lane_rate,
        total_rate,
        pattern_length,
        best_case_secs,
        average_case_secs,
        p_high_case_secs,
    };
    proof {
        assert(r.per_lane_rate == rate_from_sample(sample, elapsed_nanos));
        assert(r.total_rate == r.per_lane_rate as int * lanes as int);
        assert(r.best_case_secs == 1int / (r.total_rate as int));
        assert(r.average_case_secs == capped_secs(
            capped_pow58(pattern_length as nat) as int / (r.total_rate as int),
        ));
        assert(r.p_high_case_secs == capped_secs(
            5 * (capped_pow58(pattern_length as nat) as int / (r.total_rate as int)),
        ));
    }
    r
}

/// Measures the single-lane generation rate empirically — a fixed sample of
/// candidates is generated and timed; pattern matching is skipped, since
/// calibration measures generation cost, not match probability — and
/// projects completion times for the given pattern length and lane count.
/// Everything except the clock reading is pinned by `report_ok`.
pub fn calibrate(mode: GenerationMode, lanes: u32, pattern_length: u32) -> (r: CalibrationReport)
    requires
        mode_valid(mode),
        lanes >= 1,
    ensures
        exists|elapsed: u64| report_ok(r, CALIBRATION_SAMPLE, elapsed, lanes, pattern_length),
{
    let start = clock_now();
    let mut i: u64 = 0;
    while i < CALIBRATION_SAMPLE
        invariant
            mode_valid(mode),
        decreases CALIBRATION_SAMPLE - i,
    {
        let _candidate = generate(mode);
        i += 1;
    }
    let elapsed = nanos_since(&start);
    let r = build_report(CALIBRATION_SAMPLE, elapsed, lanes, pattern_length);
    proof {
        assert(report_ok(r, CALIBRATION_SAMPLE, elapsed, lanes, pattern_length));
    }
    r
}

/// Law: calibration is monotone in the lane count. From one and the same
/// measurement, the per-lane rate is the same, the total rate scales exactly
/// linearly with the lane count, and none of the projected completion times
/// grows when lanes are added.
pub proof fn lemma_calibration_monotone(
    ra: CalibrationReport,
    rb: CalibrationReport,
    sample: u64,
    elapsed_nanos: u64,
    lanes_a: u32,
    lanes_b: u32,
    pattern_length: u32,
)
    requires
        report_ok(ra, sample, elapsed_nanos, lanes_a, pattern_length),
        report_ok(rb, sample, elapsed_nanos, lanes_b, pattern_length),
        1 <= lanes_a <= lanes_b,
    ensures
        ra.per_lane_rate == rb.per_lane_rate,
        ra.total_rate as int * lanes_b as int == rb.total_rate as int * lanes_a as int,
        rb.average_case_secs <= ra.average_case_secs,
        rb.p_high_case_secs <= ra.p_high_case_secs,
        rb.best_case_secs <= ra.best_case_secs,
{
    let p = ra.per_lane_rate as int;
    let la = lanes_a as int;
    let lb = lanes_b as int;
    assert(p >= 1);
    assert((p * la) * lb == (p * lb) * la) by (nonlinear_arith);
    assert(1 <= p * la <= p * lb) by (nonlinear_arith)
        requires
            p >= 1,
            1 <= la <= lb,
    ;
    let space = capped_pow58(pattern_length as nat) as int;
    lemma_pow58_pos(pattern_length as nat);
    lemma_div_is_ordered_by_denominator(space, p * la, p * lb);
    lemma_div_is_ordered_by_denominator(1, p * la, p * lb);
}

} // verus!
