//! Calibration: what a sensor at rest reads.
use crate::calibration::{self, CalibrationStats};
use crate::config::SensorCalibration;
use crate::laws::numbers::{self, is_truncated};
use crate::protocol::Axis3;
use vstd::prelude::*;

verus! {

/// The sum of the first `n` readings of one axis.
pub open spec fn sum_of(readings: spec_fn(int) -> int, n: nat) -> int
    decreases n,
{
    if n == 0 {
        0
    } else {
        sum_of(readings, (n - 1) as nat) + readings(n - 1)
    }
}

/// Whether two samples are at most sixty-four apart on each axis.
pub open spec fn close(a: Axis3, b: Axis3) -> bool {
    &&& -64 <= a.x - b.x <= 64
    &&& -64 <= a.y - b.y <= 64
    &&& -64 <= a.z - b.z <= 64
}

/// Whether all samples are close to each other.
pub open spec fn all_close(samples: Seq<Axis3>) -> bool {
    forall|i: int, j: int|
        0 <= i < samples.len() && 0 <= j < samples.len() ==> close(
            #[trigger] samples[i],
            #[trigger] samples[j],
        )
}

/// Samples are counted as they come.
pub proof fn samples_are_counted(stats: &mut CalibrationStats, sample: Axis3)
    requires
        call_ensures(CalibrationStats::add, (stats, sample), ()),
        old(stats)@.len() < u64::MAX,
    ensures
        final(stats)@ == old(stats)@.push(sample),
{
}

/// A new calibration has no samples.
pub proof fn calibration_starts_empty(stats: CalibrationStats)
    requires
        call_ensures(CalibrationStats::new, (), stats),
    ensures
        stats@.len() == 0,
{
}

proof fn lemma_steady(samples: Seq<Axis3>)
    ensures
        all_close(samples) <==> calibration::is_steady(calibration::xs(samples))
            && calibration::is_steady(calibration::ys(samples)) && calibration::is_steady(
            calibration::zs(samples),
        ),
{
    let xs = calibration::xs(samples);
    let ys = calibration::ys(samples);
    let zs = calibration::zs(samples);
    if all_close(samples) {
        assert forall|i: int, j: int| 0 <= i < xs.len() && 0 <= j < xs.len() implies (
        #[trigger] xs[i]) - (#[trigger] xs[j]) <= 64 by {
            assert(close(samples[i], samples[j]));
        }
        assert forall|i: int, j: int| 0 <= i < ys.len() && 0 <= j < ys.len() implies (
        #[trigger] ys[i]) - (#[trigger] ys[j]) <= 64 by {
            assert(close(samples[i], samples[j]));
        }
        assert forall|i: int, j: int| 0 <= i < zs.len() && 0 <= j < zs.len() implies (
        #[trigger] zs[i]) - (#[trigger] zs[j]) <= 64 by {
            assert(close(samples[i], samples[j]));
        }
    }
    if calibration::is_steady(xs) && calibration::is_steady(ys) && calibration::is_steady(zs) {
        assert forall|i: int, j: int|
            0 <= i < samples.len() && 0 <= j < samples.len() implies close(
            #[trigger] samples[i],
            #[trigger] samples[j],
        ) by {
            assert(xs[i] - xs[j] <= 64 && xs[j] - xs[i] <= 64);
            assert(ys[i] - ys[j] <= 64 && ys[j] - ys[i] <= 64);
            assert(zs[i] - zs[j] <= 64 && zs[j] - zs[i] <= 64);
        }
    }
}

/// A calibration succeeds exactly with at least eight samples that are close to each other.
pub proof fn steady_samples_calibrate(
    stats: &CalibrationStats,
    position: Option<SensorCalibration>,
)
    requires
        call_ensures(CalibrationStats::finish, (stats, ), position),
    ensures
        position is Some <==> stats@.len() >= 8 && all_close(stats@),
{
    lemma_steady(stats@);
}

proof fn lemma_total(values: Seq<i32>, readings: spec_fn(int) -> int, n: nat)
    requires
        n <= values.len(),
        forall|i: int| 0 <= i < values.len() ==> #[trigger] readings(i) == values[i],
    ensures
        calibration::total(values.subrange(0, n as int)) == sum_of(readings, n),
        -2147483648 * n <= sum_of(readings, n) <= 2147483647 * n,
    decreases n,
{
    if n > 0 {
        lemma_total(values, readings, (n - 1) as nat);
        let part = values.subrange(0, n as int);
        assert(part.drop_last() =~= values.subrange(0, n - 1));
        assert(part.last() == values[n - 1]);
        assert(readings(n - 1) == values[n - 1]);
    }
}

proof fn lemma_mean(values: Seq<i32>, readings: spec_fn(int) -> int)
    requires
        values.len() > 0,
        forall|i: int| 0 <= i < values.len() ==> #[trigger] readings(i) == values[i],
    ensures
        is_truncated(
            calibration::mean(values) as int,
            sum_of(readings, values.len()),
            values.len() as int,
        ),
{
    let n = values.len() as int;
    lemma_total(values, readings, values.len());
    assert(values.subrange(0, n) =~= values);
    let sum = calibration::total(values);
    let q = crate::pointer::quotient(sum, n);
    numbers::division_rounds_towards_zero(sum, n);
    assert(-2147483648 <= q <= 2147483647) by (nonlinear_arith)
        requires
            n > 0,
            -2147483648 * n <= sum <= 2147483647 * n,
            sum >= 0 ==> 0 <= n * q <= sum < n * (q + 1),
            sum <= 0 ==> n * (q - 1) < sum <= n * q <= 0,
    ;
}

/// The rest position is the mean of the samples on each axis, rounded towards zero.
pub proof fn the_rest_position_is_the_mean(
    stats: &CalibrationStats,
    position: Option<SensorCalibration>,
)
    requires
        call_ensures(CalibrationStats::finish, (stats, ), position),
    ensures
        position matches Some(rest) ==> {
            let n = stats@.len();
            &&& is_truncated(rest.x as int, sum_of(|i: int| stats@[i].x as int, n), n as int)
            &&& is_truncated(rest.y as int, sum_of(|i: int| stats@[i].y as int, n), n as int)
            &&& is_truncated(rest.z as int, sum_of(|i: int| stats@[i].z as int, n), n as int)
        },
{
    if position is Some {
        let samples = stats@;
        lemma_mean(calibration::xs(samples), |i: int| samples[i].x as int);
        lemma_mean(calibration::ys(samples), |i: int| samples[i].y as int);
        lemma_mean(calibration::zs(samples), |i: int| samples[i].z as int);
    }
}

} // verus!
