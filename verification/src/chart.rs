//! Time-series buffer: ingestion and downsampling for one display series.
//!
//! The buffer appends raw samples forever and derives from them a
//! fixed-size display sequence of (time, averaged value) points. Index 0
//! is the oldest sample; the newest sample always sits at time 0 and
//! every other sample at a negative time, `period_ms` milliseconds apart.
//! The visible window `[min_time, max_time]` is kept at or below time 0.
//! Values are unit-agnostic integers: centivolts for voltage series,
//! whole watts for power series.

use vstd::prelude::*;
use vstd::arithmetic::div_mod::{lemma_fundamental_div_mod, lemma_div_is_ordered};
use vstd::arithmetic::mul::lemma_mul_inequality;
use crate::time_interval::{TimeInterval, spec_interval_seconds};
use crate::remote::RemoteData;

verus! {

/// The display sequence never exceeds this many points.
pub const NUM_DISPLAY_DATAPOINTS: usize = 1000;

/// Every stored sample value stays at or below this bound, which keeps
/// group sums and energy sums inside their integer types.
pub const VALUE_LIMIT: u32 = 1_000_000;

/// The buffer never holds more samples than this (at the fastest
/// supported sampling rate this is several years of samples).
pub const MAX_SAMPLES: u64 = 0x100_0000_0000;

/// Window times stay within this many milliseconds of time 0.
pub const MAX_WINDOW_MS: i64 = 0x4_0000_0000_0000;

/// What a series measures; selects presentation units only.
#[derive(Debug, Clone, Copy, PartialEq, Eq, Structural)]
pub enum ChartType {
    Voltage,
    Power,
}

impl Default for ChartType {
    fn default() -> (r: Self)
        ensures
            r == ChartType::Voltage,
    {
        ChartType::Voltage
    }
}

/// One downsampled display point: a time in milliseconds (0 is the
/// newest sample, the past is negative) and the truncated mean of its
/// sample group.
#[derive(Debug, Clone, Copy, PartialEq, Eq, Structural)]
pub struct DisplayPoint {
    pub time_ms: i64,
    pub value: u32,
}

/// A per-series time-series buffer with its derived display sequence.
#[derive(Debug, Clone, PartialEq, Eq)]
pub struct CustomChart {
    /// Series label for presentation.
    pub title: String,
    /// The raw samples, oldest first.
    pub data: Vec<u32>,
    /// The derived display sequence (see
    /// [`CustomChart::accumulate_into_view_buffer`]).
    pub display_data: Vec<DisplayPoint>,
    /// Left border of the visible window, milliseconds (at or below
    /// `max_time`).
    pub min_time: i64,
    /// Right border of the visible window, milliseconds (at or below 0).
    pub max_time: i64,
    /// First raw index of the visible window, derived.
    pub data_range_start: usize,
    /// One past the last raw index of the visible window, derived.
    pub data_range_end: usize,
    /// Start of the energy integration sub-window, milliseconds relative
    /// to `min_time`, at or above 0.
    pub integration_start_ms: i64,
    /// End of the energy integration sub-window, milliseconds relative to
    /// `min_time`, at or above `integration_start_ms`.
    pub integration_end_ms: i64,
    /// Milliseconds between two samples; at least 1.
    pub period_ms: u32,
    /// What the series measures.
    pub chart_type: ChartType,
}

/// The sum of the samples at indices `lo..hi`.
pub open spec fn spec_sum(s: Seq<u32>, lo: int, hi: int) -> int
    decreases hi - lo,
{
    if lo >= hi {
        0
    } else {
        spec_sum(s, lo, hi - 1) + s[hi - 1]
    }
}

impl CustomChart {
    /// The buffer's structural invariant: a positive per-sample period no
    /// longer than a 16-bit millisecond count, bounded sample count and
    /// sample values, a visible window at or below time 0 within the
    /// supported width, and an ordered non-negative integration
    /// sub-window within the supported width.
    pub open spec fn wf(self) -> bool {
        &&& 1 <= self.period_ms <= 0xFFFF
        &&& self.data@.len() <= MAX_SAMPLES
        &&& (forall|i: int| 0 <= i < self.data@.len() ==> self.data@[i] <= VALUE_LIMIT)
        &&& -(MAX_WINDOW_MS as int) <= self.min_time <= self.max_time <= 0
        &&& -(MAX_WINDOW_MS as int) / 2 <= self.max_time
        &&& 0 <= self.integration_start_ms <= self.integration_end_ms <= MAX_WINDOW_MS
    }

    /// The index of the newest sample; 0 when the buffer is empty.
    pub open spec fn spec_last_index(self) -> int {
        if self.data@.len() == 0 {
            0
        } else {
            self.data@.len() - 1
        }
    }

    /// The time of the sample at `ix`: `period_ms` times its distance
    /// from the newest sample, negative in the past.
    pub open spec fn spec_time_for_index(self, ix: int) -> int {
        (ix - self.spec_last_index()) * self.period_ms
    }

    /// The raw index whose time is nearest below `t`, clamped to the
    /// buffer: the distance `t / period_ms` (rounded toward zero) taken
    /// from the newest sample's index. Empty buffers map every time to 0.
    pub open spec fn spec_index_for_time(self, t: int) -> int {
        if self.data@.len() == 0 {
            0
        } else {
            let q = if t >= 0 {
                t / (self.period_ms as int)
            } else {
                -((-t) / (self.period_ms as int))
            };
            let raw = self.spec_last_index() + q;
            if raw < 0 {
                0
            } else if raw > self.spec_last_index() {
                self.spec_last_index()
            } else {
                raw
            }
        }
    }

    /// First raw index of the visible window.
    pub open spec fn spec_range_start(self) -> int {
        self.spec_index_for_time(self.min_time as int)
    }

    /// One past the last raw index of the visible window.
    pub open spec fn spec_range_end(self) -> int {
        vstd::math::min(self.spec_index_for_time(self.max_time as int) + 1, self.data@.len() as int)
    }

    /// Reads the time of the sample at `ix` (see
    /// [`CustomChart::spec_time_for_index`]); indices past the buffer are
    /// accepted and map beyond time 0.
    pub fn time_for_index(&self, ix: usize) -> (r: i64)
        requires
            self.wf(),
            ix <= MAX_SAMPLES,
        ensures
            r == self.spec_time_for_index(ix as int),
    {
        let last: usize = if self.data.len() == 0 {
            0
        } else {
            self.data.len() - 1
        };
        if ix >= last {
            let d: u64 = (ix - last) as u64;
            proof {
                assert(d * self.period_ms <= 0x100_0000_0000u64 * 0xFFFFu64) by (nonlinear_arith)
                    requires
                        d <= 0x100_0000_0000u64,
                        self.period_ms <= 0xFFFFu64,
                ;
            }
            (d * (self.period_ms as u64)) as i64
        } else {
            let d: u64 = (last - ix) as u64;
            proof {
                assert(d * self.period_ms <= 0x100_0000_0000u64 * 0xFFFFu64) by (nonlinear_arith)
                    requires
                        d <= 0x100_0000_0000u64,
                        self.period_ms <= 0xFFFFu64,
                ;
                assert((ix as int - self.spec_last_index()) * self.period_ms
                    == -((self.spec_last_index() - ix as int) * self.period_ms)) by (nonlinear_arith);
            }
            -((d * (self.period_ms as u64)) as i64)
        }
    }

    /// Reads the raw index for a window time (see
    /// [`CustomChart::spec_index_for_time`]).
    pub fn index_for_time(&self, time_ms: i64) -> (r: usize)
        requires
            self.wf(),
            -2 * MAX_WINDOW_MS <= time_ms <= 2 * MAX_WINDOW_MS,
        ensures
            r == self.spec_index_for_time(time_ms as int),
    {
        if self.data.len() == 0 {
            return 0;
        }
        let last: usize = self.data.len() - 1;
        if time_ms >= 0 {
            proof {
                lemma_div_is_ordered(0, time_ms as int, self.period_ms as int);
            }
            last
        } else {
            let steps_back: u64 = ((-time_ms) as u64) / (self.period_ms as u64);
            if steps_back >= last as u64 {
                0
            } else {
                last - (steps_back as usize)
            }
        }
    }

    /// Law: with samples present, the newest sample's time is always 0
    /// and the oldest sample's time is minus the sample distance times
    /// the period — appending `n` samples from empty puts the newest at 0
    /// and the oldest at `-(n - 1) * period_ms`.
    pub proof fn lemma_sample_times(self)
        requires
            self.wf(),
            self.data@.len() > 0,
        ensures
            self.spec_time_for_index(self.data@.len() - 1) == 0,
            self.spec_time_for_index(0) == -((self.data@.len() - 1) * self.period_ms),
    {
        assert((0 - self.spec_last_index()) * self.period_ms
            == -(self.spec_last_index() * self.period_ms)) by (nonlinear_arith);
    }

    /// Law: the index lookup is monotone in time, so an ordered pair of
    /// window times always yields an ordered pair of raw indices.
    pub proof fn lemma_index_monotone(self, t1: int, t2: int)
        requires
            self.wf(),
            t1 <= t2,
        ensures
            self.spec_index_for_time(t1) <= self.spec_index_for_time(t2),
    {
        if self.data@.len() > 0 {
            let p = self.period_ms as int;
            if t1 >= 0 {
                lemma_div_is_ordered(t1, t2, p);
            } else if t2 >= 0 {
                lemma_div_is_ordered(0, t2, p);
                lemma_div_is_ordered(0, -t1, p);
            } else {
                lemma_div_is_ordered(-t2, -t1, p);
            }
        }
    }

    /// Law: the visible window's raw index range is well formed — it
    /// starts at or after index 0, ends at or before the buffer's length,
    /// and never runs backwards.
    pub proof fn lemma_range_ordered(self)
        requires
            self.wf(),
        ensures
            0 <= self.spec_range_start() <= self.spec_range_end() <= self.data@.len(),
    {
        self.lemma_index_monotone(self.min_time as int, self.max_time as int);
    }

    /// The number of raw samples inside the visible window.
    pub open spec fn spec_range_len(self) -> int {
        self.spec_range_end() - self.spec_range_start()
    }

    /// The downsampling group size: the window's sample count divided by
    /// the display point target, rounded up, and at least 1.
    pub open spec fn spec_group_size(self) -> int {
        let c = (self.spec_range_len() + (NUM_DISPLAY_DATAPOINTS - 1))
            / (NUM_DISPLAY_DATAPOINTS as int);
        if c < 1 {
            1
        } else {
            c
        }
    }

    /// How many display points the window yields: one per full group; a
    /// trailing partial group is dropped, never emitted, so the count is
    /// deterministic for a fixed input.
    pub open spec fn spec_num_points(self) -> int {
        if self.spec_range_len() <= 0 {
            0
        } else {
            self.spec_range_len() / self.spec_group_size()
        }
    }

    /// The display sequence the visible window derives to: point `j`
    /// covers the `j`th full group of samples; its value is the group's
    /// truncated arithmetic mean and its time the time of the group's
    /// midpoint index.
    pub open spec fn spec_display(self) -> Seq<DisplayPoint> {
        let start = self.spec_range_start();
        let g = self.spec_group_size();
        Seq::new(self.spec_num_points() as nat, |j: int| DisplayPoint {
            time_ms: self.spec_time_for_index(start + j * g + g / 2) as i64,
            value: (spec_sum(self.data@, start + j * g, start + j * g + g) / g) as u32,
        })
    }

    /// Law: the display sequence never exceeds the display point target,
    /// whatever the buffer holds, and always yields exactly one point per
    /// full downsampling group of the visible window.
    pub proof fn lemma_display_bounded(self)
        requires
            self.wf(),
        ensures
            self.spec_display().len() <= NUM_DISPLAY_DATAPOINTS,
            self.spec_display().len() == self.spec_num_points(),
    {
        let l = self.spec_range_len();
        let g = self.spec_group_size();
        if l > 0 {
            let target = NUM_DISPLAY_DATAPOINTS as int;
            lemma_fundamental_div_mod(l + (target - 1), target);
            vstd::arithmetic::div_mod::lemma_mod_bound(l + (target - 1), target);
            assert(target * g >= l);
            lemma_div_is_ordered(l, target * g, g);
            vstd::arithmetic::div_mod::lemma_div_multiples_vanish(target, g);
        }
    }

    /// First raw index of the energy integration sub-window (its start
    /// time is relative to the window's left border).
    pub open spec fn spec_integration_lo(self) -> int {
        self.spec_index_for_time(self.integration_start_ms + self.min_time)
    }

    /// One past the last raw index of the energy integration sub-window.
    pub open spec fn spec_integration_hi(self) -> int {
        vstd::math::min(
            self.spec_index_for_time(self.integration_end_ms + self.min_time) + 1,
            self.data@.len() as int,
        )
    }

    /// The energy over the integration sub-window: the sum of its raw
    /// samples times the per-sample period, in value-unit-milliseconds
    /// (watt-milliseconds for a power series; divide by 3,600,000,000 for
    /// kilowatt-hours).
    pub open spec fn spec_integrate(self) -> int {
        spec_sum(self.data@, self.spec_integration_lo(), self.spec_integration_hi())
            * self.period_ms
    }

    /// Sums the samples of the integration sub-window and multiplies by
    /// the per-sample period (see [`CustomChart::spec_integrate`]): the
    /// energy bounded by the sub-window, in value-unit-milliseconds.
    #[verifier::loop_isolation(false)]
    pub fn integrate(&self) -> (r: u128)
        requires
            self.wf(),
        ensures
            r == self.spec_integrate(),
    {
        proof {
            self.lemma_index_monotone(
                self.integration_start_ms + self.min_time,
                self.integration_end_ms + self.min_time,
            );
        }
        let lo = self.index_for_time(self.integration_start_ms + self.min_time);
        let hi_raw = self.index_for_time(self.integration_end_ms + self.min_time);
        let n = self.data.len();
        let hi = if hi_raw < n {
            hi_raw + 1
        } else {
            n
        };
        let mut sum: u64 = 0;
        let mut k: usize = lo;
        while k < hi
            invariant
                lo <= k <= hi,
                sum == spec_sum(self.data@, lo as int, k as int),
                sum <= ((k - lo) as u64) * (VALUE_LIMIT as u64),
            decreases hi - k,
        {
            sum = sum + (self.data[k] as u64);
            k = k + 1;
        }
        proof {
            assert((sum as int) * (self.period_ms as int)
                <= 0x1000_0000_0000_0000int * 0xFFFFint) by (nonlinear_arith)
                requires
                    sum <= 0x1000_0000_0000_0000u64,
                    self.period_ms <= 0xFFFFu32,
            ;
            lemma_mul_inequality(
                (hi - lo) as int,
                MAX_SAMPLES as int,
                VALUE_LIMIT as int,
            );
        }
        (sum as u128) * (self.period_ms as u128)
    }

    /// Law: when the integration sub-window spans the buffer's full time
    /// range — its start at or before the oldest sample's time and its
    /// end at or past time 0 — the integrated energy is exactly the sum
    /// of all samples times the per-sample period.
    pub proof fn lemma_integrate_full_range(self)
        requires
            self.wf(),
            self.data@.len() > 0,
            self.integration_start_ms + self.min_time <= self.spec_time_for_index(0),
            self.integration_end_ms + self.min_time >= 0,
        ensures
            self.spec_integrate() == spec_sum(self.data@, 0, self.data@.len() as int)
                * self.period_ms,
    {
        let p = self.period_ms as int;
        let last = self.spec_last_index();
        let t1 = self.integration_start_ms + self.min_time;
        let t2 = self.integration_end_ms + self.min_time;
        assert(self.spec_time_for_index(0) == -(last * p)) by (nonlinear_arith)
            requires
                last == self.spec_last_index(),
                p == self.period_ms as int,
                self.spec_time_for_index(0) == (0 - self.spec_last_index()) * (
                self.period_ms as int),
        ;
        if t1 >= 0 {
            assert(last * p >= 0) by (nonlinear_arith)
                requires
                    last >= 0,
                    p >= 1,
            ;
            assert(last * p == 0);
            assert(last == 0) by (nonlinear_arith)
                requires
                    last * p == 0,
                    p >= 1,
                    last >= 0,
            ;
            lemma_div_is_ordered(t1, 0, p);
            lemma_div_is_ordered(0, t1, p);
        } else {
            assert(-t1 >= last * p);
            lemma_div_is_ordered(last * p, -t1, p);
            vstd::arithmetic::div_mod::lemma_div_multiples_vanish(last, p);
            assert(last * p == p * last) by (nonlinear_arith);
            assert((-t1) / p >= last);
        }
        assert(self.spec_integration_lo() == 0);
        lemma_div_is_ordered(0, t2, p);
        assert(self.spec_integration_hi() == self.data@.len());
    }

    /// Recomputes the visible index range and the display sequence from
    /// the raw samples and the window: the range follows the index/time
    /// mapping, and the display holds one point per full downsampling
    /// group (see [`CustomChart::spec_display`]). Everything else is
    /// untouched.
    #[verifier::loop_isolation(false)]
    pub fn accumulate_into_view_buffer(&mut self)
        requires
            old(self).wf(),
        ensures
            final(self).wf(),
            final(self).data_range_start == old(self).spec_range_start(),
            final(self).data_range_end == old(self).spec_range_end(),
            final(self).display_data@ == old(self).spec_display(),
            final(self).data == old(self).data,
            final(self).title == old(self).title,
            final(self).min_time == old(self).min_time,
            final(self).max_time == old(self).max_time,
            final(self).integration_start_ms == old(self).integration_start_ms,
            final(self).integration_end_ms == old(self).integration_end_ms,
            final(self).period_ms == old(self).period_ms,
            final(self).chart_type == old(self).chart_type,
    {
        proof {
            old(self).lemma_range_ordered();
        }
        let start = self.index_for_time(self.min_time);
        let end_raw = self.index_for_time(self.max_time);
        proof {
            if self.data@.len() > 0 {
                assert(end_raw < self.data@.len());
            } else {
                assert(end_raw == 0);
            }
        }
        let n = self.data.len();
        let end = if end_raw < n {
            end_raw + 1
        } else {
            n
        };
        self.data_range_start = start;
        self.data_range_end = end;
        let length = end - start;
        let g: usize = if length == 0 {
            1
        } else {
            proof {
                lemma_div_is_ordered(
                    length as int + (NUM_DISPLAY_DATAPOINTS - 1),
                    (NUM_DISPLAY_DATAPOINTS as int) * (length as int),
                    NUM_DISPLAY_DATAPOINTS as int,
                );
                vstd::arithmetic::div_mod::lemma_div_multiples_vanish(
                    length as int,
                    NUM_DISPLAY_DATAPOINTS as int,
                );
            }
            let c64: u64 = ((length as u64) + ((NUM_DISPLAY_DATAPOINTS - 1) as u64))
                / (NUM_DISPLAY_DATAPOINTS as u64);
            let cc = c64 as usize;
            if cc < 1 {
                1
            } else {
                cc
            }
        };
        let n_points = length / g;
        proof {
            assert(start == old(self).spec_range_start());
            assert(end == old(self).spec_range_end());
            assert(g == old(self).spec_group_size());
            assert(n_points == old(self).spec_num_points());
            lemma_fundamental_div_mod(length as int, g as int);
            vstd::arithmetic::div_mod::lemma_mod_bound(length as int, g as int);
        }
        let mut dd: Vec<DisplayPoint> = Vec::new();
        let mut j: usize = 0;
        while j < n_points
            invariant
                j <= n_points,
                dd@ =~= old(self).spec_display().take(j as int),
            decreases n_points - j,
        {
            proof {
                lemma_fundamental_div_mod(length as int, g as int);
                vstd::arithmetic::div_mod::lemma_mod_bound(length as int, g as int);
                lemma_mul_inequality(j as int, n_points as int, g as int);
                lemma_mul_inequality(j as int + 1, n_points as int, g as int);
                assert((n_points as int) * (g as int) <= length as int);
                assert((j as int) * (g as int) <= length as int);
                assert((j as int + 1) * (g as int) == (j as int) * (g as int) + (g as int))
                    by (nonlinear_arith);
            }
            let gstart = start + j * g;
            let mut sum: u64 = 0;
            let mut k: usize = 0;
            while k < g
                invariant
                    k <= g,
                    gstart + g <= end,
                    sum == spec_sum(self.data@, gstart as int, gstart as int + k),
                    sum <= (k as u64) * (VALUE_LIMIT as u64),
                decreases g - k,
            {
                sum = sum + (self.data[gstart + k] as u64);
                k = k + 1;
            }
            proof {
                lemma_div_is_ordered(
                    sum as int,
                    (g as int) * (VALUE_LIMIT as int),
                    g as int,
                );
                vstd::arithmetic::div_mod::lemma_div_multiples_vanish(
                    VALUE_LIMIT as int,
                    g as int,
                );
                assert((g as int) * (VALUE_LIMIT as int) == (VALUE_LIMIT as int) * (g as int))
                    by (nonlinear_arith);
            }
            let mean = (sum / (g as u64)) as u32;
            let t = self.time_for_index(gstart + g / 2);
            dd.push(DisplayPoint { time_ms: t, value: mean });
            j = j + 1;
            proof {
                assert(dd@ =~= old(self).spec_display().take(j as int));
            }
        }
        self.display_data = dd;
        proof {
            assert(self.display_data@ =~= old(self).spec_display());
        }
    }

    /// Drains a voltage-series batch out of `remote_data`, converts each
    /// raw ADC reading to centivolts through the board transform, appends
    /// the converted samples, and recomputes the display sequence.
    #[verifier::loop_isolation(false)]
    pub fn update_voltages_from_remote(&mut self, remote_data: &mut RemoteData)
        requires
            old(self).wf(),
            old(self).data@.len() + spec_adc_batch(*old(remote_data)).len() <= MAX_SAMPLES,
        ensures
            final(self).wf(),
            *final(remote_data) is NoData,
            final(self).data@ == old(self).data@ + spec_adc_batch(*old(remote_data)).map_values(
                |a: u16| spec_adc_centivolts(a),
            ),
            final(self).display_data@ == final(self).spec_display(),
            final(self).data_range_start == final(self).spec_range_start(),
            final(self).data_range_end == final(self).spec_range_end(),
            final(self).title == old(self).title,
            final(self).min_time == old(self).min_time,
            final(self).max_time == old(self).max_time,
            final(self).integration_start_ms == old(self).integration_start_ms,
            final(self).integration_end_ms == old(self).integration_end_ms,
            final(self).period_ms == old(self).period_ms,
            final(self).chart_type == old(self).chart_type,
    {
        let readings = remote_data.take_adc_readings();
        let mut i: usize = 0;
        while i < readings.len()
            invariant
                i <= readings@.len(),
                self.data@ == old(self).data@ + readings@.take(i as int).map_values(
                    |a: u16| spec_adc_centivolts(a),
                ),
                self.title == old(self).title,
                self.display_data == old(self).display_data,
                self.data_range_start == old(self).data_range_start,
                self.data_range_end == old(self).data_range_end,
                self.min_time == old(self).min_time,
                self.max_time == old(self).max_time,
                self.integration_start_ms == old(self).integration_start_ms,
                self.integration_end_ms == old(self).integration_end_ms,
                self.period_ms == old(self).period_ms,
                self.chart_type == old(self).chart_type,
            decreases readings@.len() - i,
        {
            let v = crate::adc_reading_to_voltage(readings[i]);
            proof {
                lemma_mul_inequality(readings@[i as int] as int, 0xFFFF, 2_277_000);
                assert((readings@[i as int] as int) * 2_277_000
                    == 2_277_000 * (readings@[i as int] as int)) by (nonlinear_arith);
                lemma_div_is_ordered(
                    2_277_000 * (readings@[i as int] as int),
                    2_277_000int * 0xFFFFint,
                    506_044,
                );
            }
            self.data.push(v);
            i = i + 1;
            proof {
                assert(self.data@ =~= old(self).data@ + readings@.take(i as int).map_values(
                    |a: u16| spec_adc_centivolts(a),
                ));
            }
        }
        proof {
            assert(readings@.take(readings@.len() as int) =~= readings@);
            assert forall|ix: int| 0 <= ix < self.data@.len() implies self.data@[ix]
                <= VALUE_LIMIT by {
                if ix >= old(self).data@.len() {
                    lemma_adc_centivolts_bounded(readings@[ix - old(self).data@.len()]);
                }
            }
        }
        self.accumulate_into_view_buffer();
    }

    /// Drains a power-series batch out of `remote_data`, appends each
    /// reading as a whole-watt sample, and recomputes the display
    /// sequence.
    #[verifier::loop_isolation(false)]
    pub fn update_power_from_remote(&mut self, remote_data: &mut RemoteData)
        requires
            old(self).wf(),
            old(self).data@.len() + spec_power_batch(*old(remote_data)).len() <= MAX_SAMPLES,
        ensures
            final(self).wf(),
            *final(remote_data) is NoData,
            final(self).data@ == old(self).data@ + spec_power_batch(*old(remote_data)).map_values(
                |a: u16| a as u32,
            ),
            final(self).display_data@ == final(self).spec_display(),
            final(self).data_range_start == final(self).spec_range_start(),
            final(self).data_range_end == final(self).spec_range_end(),
            final(self).title == old(self).title,
            final(self).min_time == old(self).min_time,
            final(self).max_time == old(self).max_time,
            final(self).integration_start_ms == old(self).integration_start_ms,
            final(self).integration_end_ms == old(self).integration_end_ms,
            final(self).period_ms == old(self).period_ms,
            final(self).chart_type == old(self).chart_type,
    {
        let readings = remote_data.take_power_readings();
        let mut i: usize = 0;
        while i < readings.len()
            invariant
                i <= readings@.len(),
                self.data@ == old(self).data@ + readings@.take(i as int).map_values(
                    |a: u16| a as u32,
                ),
                self.title == old(self).title,
                self.display_data == old(self).display_data,
                self.data_range_start == old(self).data_range_start,
                self.data_range_end == old(self).data_range_end,
                self.min_time == old(self).min_time,
                self.max_time == old(self).max_time,
                self.integration_start_ms == old(self).integration_start_ms,
                self.integration_end_ms == old(self).integration_end_ms,
                self.period_ms == old(self).period_ms,
                self.chart_type == old(self).chart_type,
            decreases readings@.len() - i,
        {
            let v = readings[i] as u32;
            self.data.push(v);
            i = i + 1;
            proof {
                assert(self.data@ =~= old(self).data@ + readings@.take(i as int).map_values(
                    |a: u16| a as u32,
                ));
            }
        }
        proof {
            assert(readings@.take(readings@.len() as int) =~= readings@);
            assert forall|ix: int| 0 <= ix < self.data@.len() implies self.data@[ix]
                <= VALUE_LIMIT by {
            }
        }
        self.accumulate_into_view_buffer();
    }

    /// Moves the window's left border to one interval width before its
    /// right border (the right border stays at or below time 0) and
    /// recomputes the display sequence.
    pub fn adjust_time_interval(&mut self, time_interval: TimeInterval)
        requires
            old(self).wf(),
        ensures
            final(self).wf(),
            final(self).max_time == old(self).max_time,
            final(self).min_time == old(self).max_time - 1000 * spec_interval_seconds(
                time_interval,
            ),
            final(self).display_data@ == final(self).spec_display(),
            final(self).data_range_start == final(self).spec_range_start(),
            final(self).data_range_end == final(self).spec_range_end(),
            final(self).data == old(self).data,
            final(self).title == old(self).title,
            final(self).integration_start_ms == old(self).integration_start_ms,
            final(self).integration_end_ms == old(self).integration_end_ms,
            final(self).period_ms == old(self).period_ms,
            final(self).chart_type == old(self).chart_type,
    {
        let interval_ms: i64 = (time_interval.to_seconds() as i64) * 1000;
        self.max_time = if self.max_time < 0 {
            self.max_time
        } else {
            0
        };
        self.min_time = self.max_time - interval_ms;
        self.accumulate_into_view_buffer();
    }

    /// Moves the window's right border (at or below time 0, within half
    /// the supported width so a full-day window still fits) and
    /// recomputes the display sequence.
    pub fn set_max_time(&mut self, t: i64)
        requires
            old(self).wf(),
            -(MAX_WINDOW_MS / 2) <= t <= 0,
            t >= old(self).min_time,
        ensures
            final(self).wf(),
            final(self).max_time == t,
            final(self).min_time == old(self).min_time,
            final(self).display_data@ == final(self).spec_display(),
            final(self).data_range_start == final(self).spec_range_start(),
            final(self).data_range_end == final(self).spec_range_end(),
            final(self).data == old(self).data,
            final(self).title == old(self).title,
            final(self).integration_start_ms == old(self).integration_start_ms,
            final(self).integration_end_ms == old(self).integration_end_ms,
            final(self).period_ms == old(self).period_ms,
            final(self).chart_type == old(self).chart_type,
    {
        self.max_time = t;
        self.accumulate_into_view_buffer();
    }

    /// Moves the energy integration sub-window (both borders relative to
    /// the window's left border, ordered and non-negative).
    pub fn set_integration_range(&mut self, start_ms: i64, end_ms: i64)
        requires
            old(self).wf(),
            0 <= start_ms <= end_ms <= MAX_WINDOW_MS,
        ensures
            final(self).wf(),
            final(self).integration_start_ms == start_ms,
            final(self).integration_end_ms == end_ms,
            *final(self) == (CustomChart {
                integration_start_ms: start_ms,
                integration_end_ms: end_ms,
                ..*old(self)
            }),
    {
        self.integration_start_ms = start_ms;
        self.integration_end_ms = end_ms;
    }

    /// Sets the per-sample period from a device-reported millisecond
    /// interval and recomputes the display sequence: a period change
    /// invalidates every cached index/time mapping, so the derivation is
    /// refreshed at once.
    pub fn set_period_ms(&mut self, ms: u32)
        requires
            old(self).wf(),
            1 <= ms <= 0xFFFF,
        ensures
            final(self).wf(),
            final(self).period_ms == ms,
            final(self).display_data@ == final(self).spec_display(),
            final(self).data_range_start == final(self).spec_range_start(),
            final(self).data_range_end == final(self).spec_range_end(),
            final(self).data == old(self).data,
            final(self).title == old(self).title,
            final(self).min_time == old(self).min_time,
            final(self).max_time == old(self).max_time,
            final(self).integration_start_ms == old(self).integration_start_ms,
            final(self).integration_end_ms == old(self).integration_end_ms,
            final(self).chart_type == old(self).chart_type,
    {
        self.period_ms = ms;
        self.accumulate_into_view_buffer();
    }

    /// Replaces the raw samples wholesale — used for derived series that
    /// are recomputed from other series — and refreshes the display
    /// sequence.
    pub fn replace_data(&mut self, samples: Vec<u32>)
        requires
            old(self).wf(),
            samples@.len() <= MAX_SAMPLES,
            forall|i: int| 0 <= i < samples@.len() ==> samples@[i] <= VALUE_LIMIT,
        ensures
            final(self).wf(),
            final(self).data == samples,
            final(self).display_data@ == final(self).spec_display(),
            final(self).data_range_start == final(self).spec_range_start(),
            final(self).data_range_end == final(self).spec_range_end(),
            final(self).title == old(self).title,
            final(self).min_time == old(self).min_time,
            final(self).max_time == old(self).max_time,
            final(self).integration_start_ms == old(self).integration_start_ms,
            final(self).integration_end_ms == old(self).integration_end_ms,
            final(self).period_ms == old(self).period_ms,
            final(self).chart_type == old(self).chart_type,
    {
        self.data = samples;
        self.accumulate_into_view_buffer();
    }
}

/// The difference of two sample series, element by element, as long as
/// the shorter one; a subtrahend sample larger than its minuend sample
/// yields zero, since a derived series holds no negative values. Feeds
/// the derived second-battery series (battery pack minus first battery).
pub fn difference_series(minuend: &Vec<u32>, subtrahend: &Vec<u32>) -> (r: Vec<u32>)
    ensures
        r@.len() == vstd::math::min(minuend@.len() as int, subtrahend@.len() as int),
        forall|i: int| 0 <= i < r@.len() ==> r@[i] == spec_clamped_diff(minuend@[i], subtrahend@[i]),
{
    let n = if minuend.len() < subtrahend.len() {
        minuend.len()
    } else {
        subtrahend.len()
    };
    let mut r: Vec<u32> = Vec::new();
    let mut i: usize = 0;
    while i < n
        invariant
            i <= n,
            n == vstd::math::min(minuend@.len() as int, subtrahend@.len() as int),
            r@.len() == i,
            forall|k: int| 0 <= k < i ==> r@[k] == spec_clamped_diff(minuend@[k], subtrahend@[k]),
        decreases n - i,
    {
        let a = minuend[i];
        let b = subtrahend[i];
        let d = if a >= b {
            a - b
        } else {
            0
        };
        r.push(d);
        i = i + 1;
    }
    r
}

/// The non-negative difference of two sample values.
pub open spec fn spec_clamped_diff(a: u32, b: u32) -> u32 {
    if a >= b {
        (a - b) as u32
    } else {
        0
    }
}

/// The voltage-series sample batch a container holds, if any.
pub open spec fn spec_adc_batch(r: RemoteData) -> Seq<u16> {
    match r {
        RemoteData::BatteryVoltage(v) => v@,
        RemoteData::BatteryPackVoltage(v) => v@,
        RemoteData::PVVoltage(v) => v@,
        _ => Seq::empty(),
    }
}

/// The power-series sample batch a container holds, if any.
pub open spec fn spec_power_batch(r: RemoteData) -> Seq<u16> {
    match r {
        RemoteData::PVPower(v) => v@,
        _ => Seq::empty(),
    }
}

/// The centivolts the board transform assigns to one raw ADC reading.
pub open spec fn spec_adc_centivolts(a: u16) -> u32 {
    (2_277_000 * a / 506_044) as u32
}

/// Law: the board transform keeps every converted reading at or below
/// the sample value bound.
pub proof fn lemma_adc_centivolts_bounded(a: u16)
    ensures
        spec_adc_centivolts(a) <= VALUE_LIMIT,
{
    lemma_mul_inequality(a as int, 0xFFFF, 2_277_000);
    assert((a as int) * 2_277_000 == 2_277_000 * (a as int)) by (nonlinear_arith);
    lemma_div_is_ordered(2_277_000 * (a as int), 2_277_000int * 0xFFFFint, 506_044);
}

impl Default for CustomChart {
    /// An empty series: no samples, a 100-second window ending at time 0,
    /// an integration sub-window spanning that window, and a 20 ms
    /// period.
    fn default() -> (r: Self)
        ensures
            r.wf(),
            r.title@ == Seq::<char>::empty(),
            r.data@ == Seq::<u32>::empty(),
            r.display_data@ == Seq::<DisplayPoint>::empty(),
            r.min_time == -100_000,
            r.max_time == 0,
            r.data_range_start == 0,
            r.data_range_end == 0,
            r.integration_start_ms == 0,
            r.integration_end_ms == 100_000,
            r.period_ms == 20,
            r.chart_type == ChartType::Voltage,
    {
        CustomChart {
            title: String::new(),
            data: Vec::new(),
            display_data: Vec::new(),
            min_time: -100_000,
            max_time: 0,
            data_range_start: 0,
            data_range_end: 0,
            integration_start_ms: 0,
            integration_end_ms: 100_000,
            period_ms: 20,
            chart_type: ChartType::Voltage,
        }
    }
}

} // verus!
