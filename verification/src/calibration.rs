//! The rest position of a sensor, from samples of a controller that lies still.
use crate::config::SensorCalibration;
use crate::pointer;
use crate::protocol::Axis3;
use vstd::prelude::*;

verus! {

/// How many samples a rest position needs.
pub const MIN_SAMPLES: u64 = 8;

/// How far the samples of one axis may lie apart.
pub const MAX_SPREAD: i64 = 64;

/// The sum of values.
pub open spec fn total(values: Seq<i32>) -> int
    decreases values.len(),
{
    if values.len() == 0 {
        0
    } else {
        total(values.drop_last()) + values.last()
    }
}

/// Whether no two values lie too far apart.
pub open spec fn is_steady(values: Seq<i32>) -> bool {
    forall|i: int, j: int|
        0 <= i < values.len() && 0 <= j < values.len() ==> (#[trigger] values[i]) - (
        #[trigger] values[j]) <= MAX_SPREAD
}

/// The mean of values, rounded towards zero.
pub open spec fn mean(values: Seq<i32>) -> i32 {
    pointer::quotient(total(values), values.len() as int) as i32
}

proof fn lemma_total_is_bounded(values: Seq<i32>)
    ensures
        -0x8000_0000 * values.len() <= total(values) <= 0x7fff_ffff * values.len(),
    decreases values.len(),
{
    if values.len() > 0 {
        lemma_total_is_bounded(values.drop_last());
    }
}

/// What is kept of the samples of one axis.
struct AxisStats {
    values: Ghost<Seq<i32>>,
    sum: i128,
    low: i32,
    high: i32,
}

impl AxisStats {
    spec fn well_formed(self, count: u64) -> bool {
        &&& self.values@.len() == count
        &&& self.sum == total(self.values@)
        &&& forall|i: int|
            0 <= i < self.values@.len() ==> self.low <= #[trigger] self.values@[i] <= self.high
        &&& count > 0 ==> self.values@.contains(self.low) && self.values@.contains(self.high)
    }

    fn new() -> (axis: AxisStats)
        ensures
            axis.well_formed(0),
            axis.values@ == Seq::<i32>::empty(),
    {
        AxisStats { values: Ghost(Seq::empty()), sum: 0, low: 0, high: 0 }
    }

    fn add(&mut self, value: i32, count: u64)
        requires
            old(self).well_formed(count),
            count < u64::MAX,
        ensures
            final(self).well_formed((count + 1) as u64),
            final(self).values@ == old(self).values@.push(value),
    {
        let ghost before = self.values@;
        let ghost after = before.push(value);
        proof {
            lemma_total_is_bounded(before);
            assert(after.drop_last() =~= before);
            assert(after[before.len() as int] == value);
            assert(after.contains(value));
            assert forall|v: i32| before.contains(v) implies after.contains(v) by {
                let i = choose|i: int| 0 <= i < before.len() && before[i] == v;
                assert(after[i] == v);
            }
        }
        self.sum = self.sum + value as i128;
        if count == 0 || value < self.low {
            self.low = value;
        }
        if count == 0 || value > self.high {
            self.high = value;
        }
        self.values = Ghost(after);
    }

    fn is_steady(&self, count: u64) -> (r: bool)
        requires
            self.well_formed(count),
            count > 0,
        ensures
            r == is_steady(self.values@),
    {
        let r = self.high as i64 - self.low as i64 <= MAX_SPREAD;
        proof {
            let v = self.values@;
            let i = choose|i: int| 0 <= i < v.len() && v[i] == self.high;
            let j = choose|j: int| 0 <= j < v.len() && v[j] == self.low;
            if is_steady(v) {
                assert(v[i] - v[j] <= MAX_SPREAD);
            }
        }
        r
    }

    fn mean(&self, count: u64) -> (m: i32)
        requires
            self.well_formed(count),
            count > 0,
        ensures
            m == mean(self.values@),
    {
        proof {
            lemma_total_is_bounded(self.values@);
        }
        let n: i128 = count as i128;
        if self.sum >= 0 {
            let q: i128 = self.sum / n;
            proof {
                let s = self.sum as int;
                let c = n as int;
                assert(0 <= s / c <= 0x7fff_ffff) by (nonlinear_arith)
                    requires
                        c > 0,
                        0 <= s <= 0x7fff_ffff * c,
                ;
            }
            q as i32
        } else {
            let q: i128 = (-self.sum) / n;
            proof {
                let s = -(self.sum as int);
                let c = n as int;
                assert(0 <= s / c <= 0x8000_0000) by (nonlinear_arith)
                    requires
                        c > 0,
                        0 <= s <= 0x8000_0000 * c,
                ;
            }
            (-q) as i32
        }
    }
}

/// What is kept of the samples of a sensor.
pub struct CalibrationStats {
    samples: Ghost<Seq<Axis3>>,
    count: u64,
    x: AxisStats,
    y: AxisStats,
    z: AxisStats,
}

impl View for CalibrationStats {
    type V = Seq<Axis3>;

    closed spec fn view(&self) -> Seq<Axis3> {
        self.samples@
    }
}

/// The values of one axis of samples.
pub open spec fn xs(samples: Seq<Axis3>) -> Seq<i32> {
    samples.map_values(|s: Axis3| s.x)
}

/// The values of one axis of samples.
pub open spec fn ys(samples: Seq<Axis3>) -> Seq<i32> {
    samples.map_values(|s: Axis3| s.y)
}

/// The values of one axis of samples.
pub open spec fn zs(samples: Seq<Axis3>) -> Seq<i32> {
    samples.map_values(|s: Axis3| s.z)
}

/// The rest position that samples show: their mean, where there are enough and they are steady.
pub open spec fn rest_position(samples: Seq<Axis3>) -> Option<SensorCalibration> {
    if samples.len() >= MIN_SAMPLES && is_steady(xs(samples)) && is_steady(ys(samples))
        && is_steady(zs(samples)) {
        Some(
            SensorCalibration { x: mean(xs(samples)), y: mean(ys(samples)), z: mean(zs(samples)) },
        )
    } else {
        None
    }
}

impl CalibrationStats {
    /// Whether what is kept agrees with the samples.
    pub closed spec fn well_formed(self) -> bool {
        &&& self.samples@.len() == self.count
        &&& self.x.well_formed(self.count)
        &&& self.y.well_formed(self.count)
        &&& self.z.well_formed(self.count)
        &&& self.x.values@ == xs(self.samples@)
        &&& self.y.values@ == ys(self.samples@)
        &&& self.z.values@ == zs(self.samples@)
    }

    /// No samples.
    pub fn new() -> (stats: CalibrationStats)
        ensures
            stats.well_formed(),
            stats@ == Seq::<Axis3>::empty(),
    {
        let stats = CalibrationStats {
            samples: Ghost(Seq::empty()),
            count: 0,
            x: AxisStats::new(),
            y: AxisStats::new(),
            z: AxisStats::new(),
        };
        assert(xs(stats@) =~= Seq::empty());
        assert(ys(stats@) =~= Seq::empty());
        assert(zs(stats@) =~= Seq::empty());
        stats
    }

    /// Takes one more sample, as long as they can be counted.
    pub fn add(&mut self, sample: Axis3)
        requires
            old(self).well_formed(),
        ensures
            final(self).well_formed(),
            final(self)@ == (if old(self)@.len() < u64::MAX {
                old(self)@.push(sample)
            } else {
                old(self)@
            }),
    {
        if self.count == u64::MAX {
            return;
        }
        let ghost before = self.samples@;
        self.x.add(sample.x, self.count);
        self.y.add(sample.y, self.count);
        self.z.add(sample.z, self.count);
        self.count = self.count + 1;
        self.samples = Ghost(before.push(sample));
        assert(xs(self.samples@) =~= xs(before).push(sample.x));
        assert(ys(self.samples@) =~= ys(before).push(sample.y));
        assert(zs(self.samples@) =~= zs(before).push(sample.z));
    }

    /// The rest position that the samples show.
    pub fn finish(&self) -> (position: Option<SensorCalibration>)
        requires
            self.well_formed(),
        ensures
            position == rest_position(self@),
    {
        if self.count < MIN_SAMPLES {
            return None;
        }
        if !self.x.is_steady(self.count) || !self.y.is_steady(self.count) || !self.z.is_steady(
            self.count,
        ) {
            return None;
        }
        Some(
            SensorCalibration {
                x: self.x.mean(self.count),
                y: self.y.mean(self.count),
                z: self.z.mean(self.count),
            },
        )
    }
}

/// Equal samples are steady, and their mean is the sample itself.
pub proof fn equal_samples_are_their_own_mean(value: i32, n: nat)
    requires
        n > 0,
    ensures
        is_steady(Seq::new(n, |i: int| value)),
        mean(Seq::new(n, |i: int| value)) == value,
{
    lemma_equal_total(value, n);
    if value >= 0 {
        assert((value * n) / (n as int) == value) by (nonlinear_arith)
            requires
                n > 0,
        ;
    } else {
        assert((-(value * n)) / (n as int) == -value) by (nonlinear_arith)
            requires
                n > 0,
        ;
        assert(value * n <= 0) by (nonlinear_arith)
            requires
                value < 0,
        ;
        if value * n == 0 {
            assert(value == 0 || n == 0) by (nonlinear_arith)
                requires
                    value * n == 0,
            ;
        }
    }
    if value >= 0 {
        assert(value * n >= 0) by (nonlinear_arith)
            requires
                value >= 0,
        ;
    }
}

proof fn lemma_equal_total(value: i32, n: nat)
    ensures
        total(Seq::new(n, |i: int| value)) == value * n,
    decreases n,
{
    let s = Seq::new(n, |i: int| value);
    if n > 0 {
        lemma_equal_total(value, (n - 1) as nat);
        assert(s.drop_last() =~= Seq::new((n - 1) as nat, |i: int| value));
        assert(s.last() == value);
        assert(total(s) == value * ((n - 1) as nat) + value);
        assert(value * ((n - 1) as nat) + value == value * n) by (nonlinear_arith)
            requires
                n > 0,
        ;
    } else {
        assert(value * n == 0) by (nonlinear_arith)
            requires
                n == 0,
        ;
    }
}

} // verus!
