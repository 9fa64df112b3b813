//! The halving schedule: a reward rate that is cut in half after every
//! interval of a fixed number of days, down to a floor.

use vstd::prelude::*;
use vstd::arithmetic::div_mod::*;
use vstd::arithmetic::mul::*;
use vstd::arithmetic::power2::*;
use vstd::bits::lemma_u64_shr_is_div;
use crate::error::ErrorCode;

verus! {

/// Seconds in a day. Rates are quoted per day and applied per second.
pub const SECONDS_PER_DAY: u64 = 86400;

/// A reward rate that starts at a base value and halves after every
/// interval, at most a capped number of times, never falling under a floor.
#[derive(Clone, Copy, Debug)]
pub struct HalvingSchedule {
    base_rate: u64,
    interval_days: u64,
    max_periods: u64,
    min_rate: u64,
}

impl HalvingSchedule {
    #[verifier::type_invariant]
    spec fn inv(self) -> bool {
        self.interval_days > 0
    }

    /// Whether the schedule is usable: its interval is at least one day.
    /// Every schedule that `new` returns is.
    pub closed spec fn valid(&self) -> bool {
        self.interval_days > 0
    }

    /// Rate per unit per day before the first halving.
    pub closed spec fn spec_base_rate(&self) -> u64 {
        self.base_rate
    }

    /// Days between two halvings.
    pub closed spec fn spec_interval_days(&self) -> u64 {
        self.interval_days
    }

    /// Number of halvings after which the rate stays as it is.
    pub closed spec fn spec_max_periods(&self) -> u64 {
        self.max_periods
    }

    /// Floor under which the rate never falls.
    pub closed spec fn spec_min_rate(&self) -> u64 {
        self.min_rate
    }

    /// Makes a schedule. An interval of zero days is rejected with
    /// `InvalidAmount`.
    pub fn new(base_rate: u64, interval_days: u64, max_periods: u64, min_rate: u64) -> (r: Result<
        HalvingSchedule,
        ErrorCode,
    >)
        ensures
            match r {
                Ok(h) => {
                    &&& interval_days > 0
                    &&& h.valid()
                    &&& h.spec_base_rate() == base_rate
                    &&& h.spec_interval_days() == interval_days
                    &&& h.spec_max_periods() == max_periods
                    &&& h.spec_min_rate() == min_rate
                },
                Err(e) => interval_days == 0 && e == ErrorCode::InvalidAmount,
            },
    {
        if interval_days == 0 {
            return Err(ErrorCode::InvalidAmount);
        }
        Ok(HalvingSchedule { base_rate, interval_days, max_periods, min_rate })
    }

    /// Rate per unit per day before the first halving.
    #[verifier::when_used_as_spec(spec_base_rate)]
    pub fn base_rate(&self) -> (r: u64)
        ensures
            r == self.spec_base_rate(),
    {
        self.base_rate
    }

    /// Days between two halvings.
    #[verifier::when_used_as_spec(spec_interval_days)]
    pub fn interval_days(&self) -> (r: u64)
        ensures
            r == self.spec_interval_days(),
            r > 0,
    {
        proof {
            use_type_invariant(self);
        }
        self.interval_days
    }

    /// Number of halvings after which the rate stays as it is.
    #[verifier::when_used_as_spec(spec_max_periods)]
    pub fn max_periods(&self) -> (r: u64)
        ensures
            r == self.spec_max_periods(),
    {
        self.max_periods
    }

    /// Floor under which the rate never falls.
    #[verifier::when_used_as_spec(spec_min_rate)]
    pub fn min_rate(&self) -> (r: u64)
        ensures
            r == self.spec_min_rate(),
    {
        self.min_rate
    }

    /// Number of halvings that apply at instant `t`, for a system started at
    /// `start`: the whole days elapsed since the start, divided by the
    /// interval and rounded down, capped at the schedule's maximum. Before
    /// the start no halving applies.
    pub open spec fn period_index(&self, start: int, t: int) -> int {
        let days_elapsed = if t > start {
            (t - start) / 86400
        } else {
            0
        };
        let completed = days_elapsed / (self.interval_days() as int);
        if completed < self.max_periods() {
            completed
        } else {
            self.max_periods() as int
        }
    }

    /// Rate per unit per day after `periods` halvings: the base rate divided
    /// by two to the power `periods`, rounded down, and raised to the floor
    /// where it would fall under it.
    pub open spec fn rate_in_period(&self, periods: int) -> int {
        let halved = (self.base_rate() as int) / (pow2(periods as nat) as int);
        if halved > self.min_rate() {
            halved
        } else {
            self.min_rate() as int
        }
    }

    /// Rate per unit per day at instant `t`, for a system started at `start`.
    pub open spec fn rate_at(&self, start: int, t: int) -> int {
        self.rate_in_period(self.period_index(start, t))
    }

    /// Computes the number of halvings that apply at `t`.
    pub fn current_period(&self, start_time: i64, t: i64) -> (p: u64)
        ensures
            p == self.period_index(start_time as int, t as int),
    {
        let interval = self.interval_days();
        let days_elapsed: u64 = if t > start_time {
            let elapsed: i128 = t as i128 - start_time as i128;
            (elapsed / 86400) as u64
        } else {
            0
        };
        let completed = days_elapsed / interval;
        if completed < self.max_periods {
            completed
        } else {
            self.max_periods
        }
    }

    /// Computes the rate after `periods` halvings.
    pub fn rate_after(&self, periods: u64) -> (rate: u64)
        ensures
            rate == self.rate_in_period(periods as int),
    {
        let halved: u64 = if periods >= 64 {
            proof {
                lemma_pow2_exceeds_u64(periods as nat);
                lemma_small_div_is_zero(self.base_rate as int, pow2(periods as nat) as int);
            }
            0
        } else {
            proof {
                lemma_u64_shr_is_div(self.base_rate, periods);
            }
            self.base_rate >> periods
        };
        if halved > self.min_rate {
            halved
        } else {
            self.min_rate
        }
    }

    /// Computes the rate per unit per day at instant `t`.
    pub fn current_rate(&self, start_time: i64, t: i64) -> (rate: u64)
        ensures
            rate == self.rate_at(start_time as int, t as int),
    {
        self.rate_after(self.current_period(start_time, t))
    }

    /// Yield that `units` units earn from instant `from` (included) to
    /// instant `to` (excluded): for each second of that time, the day's rate
    /// at that second divided by the seconds of a day, rounded down, for each
    /// unit. Where the rate halves in between, each second counts at its own
    /// rate.
    pub open spec fn accrued(&self, start: int, units: int, from: int, to: int) -> int
        decreases to - from,
    {
        if to <= from {
            0
        } else {
            self.accrued(start, units, from, to - 1) + units * (self.rate_at(start, to - 1)
                / 86400)
        }
    }

    /// Computes the yield of `units` units from `from` to `to`, one stretch
    /// of constant rate at a time. Returns `None` exactly when the yield does
    /// not fit in 64 bits.
    pub fn accrue(&self, start_time: i64, units: u64, from: i64, to: i64) -> (r: Option<u64>)
        ensures
            match r {
                Some(v) => v == self.accrued(start_time as int, units as int, from as int, to as int),
                None => self.accrued(start_time as int, units as int, from as int, to as int)
                    > u64::MAX,
            },
    {
        proof {
            use_type_invariant(self);
        }
        let ghost start = start_time as int;
        let ghost n = units as int;
        if to <= from {
            return Some(0);
        }
        let span: u128 = 86400u128 * (self.interval_days as u128);
        let mut cur: i64 = from;
        let mut total: u64 = 0;
        while cur < to
            invariant
                self.valid(),
                start == start_time as int,
                n == units as int,
                span == 86400 * self.interval_days,
                from <= cur <= to,
                total == self.accrued(start, n, from as int, cur as int),
            decreases to - cur,
        {
            let elapsed: u128 = if cur > start_time {
                (cur as i128 - start_time as i128) as u128
            } else {
                0
            };
            let completed: u128 = elapsed / span;
            let settled: bool = completed >= 64 || completed >= self.max_periods as u128;
            let period: u64 = if completed < self.max_periods as u128 {
                completed as u64
            } else {
                self.max_periods
            };
            let end: i64 = if settled {
                to
            } else {
                proof {
                    lemma_mul_upper_bound(completed as int + 1, 64, span as int, span as int);
                }
                let boundary: i128 = start_time as i128 + ((completed + 1) * span) as i128;
                if boundary < to as i128 {
                    boundary as i64
                } else {
                    to
                }
            };
            let rate = self.rate_after(period);
            proof {
                self.lemma_completed(start, cur as int);
                assert(self.period_index(start, cur as int) == period);
                if settled {
                    assert forall|s: int| cur <= s < end implies self.rate_at(start, s)
                        == rate by {
                        self.lemma_rate_settled(start, cur as int, s);
                    }
                } else {
                    lemma_fundamental_div_mod(elapsed as int, span as int);
                    lemma_mul_is_distributive_add_other_way(span as int, completed as int, 1);
                    lemma_mul_is_commutative(span as int, completed as int);
                    assert(cur < end);
                    assert forall|s: int| cur <= s < end implies self.rate_at(start, s)
                        == rate by {
                        self.lemma_completed(start, s);
                        let e = if s > start {
                            s - start
                        } else {
                            0
                        };
                        assert(completed * span <= e < (completed + 1) * span);
                        lemma_fundamental_div_mod_converse_div(
                            e,
                            span as int,
                            completed as int,
                            e - completed * span,
                        );
                    }
                }
                self.lemma_accrued_constant(start, n, cur as int, end as int, rate as int);
                self.lemma_accrued_splits(start, n, from as int, cur as int, end as int);
                self.lemma_accrued_splits(start, n, from as int, end as int, to as int);
                self.lemma_accrued_nonnegative(start, n, end as int, to as int);
            }
            let length: u64 = (end as i128 - cur as i128) as u64;
            let per_second: u64 = rate / SECONDS_PER_DAY;
            let ghost piece = n * per_second * length;
            proof {
                lemma_mul_nonnegative(n, per_second as int);
                let each = n * per_second;
                assert(each <= each * length) by (nonlinear_arith)
                    requires
                        each >= 0,
                        length >= 1,
                ;
            }
            let per_unit = match units.checked_mul(per_second) {
                Some(v) => v,
                None => {
                    return None;
                },
            };
            let amount = match per_unit.checked_mul(length) {
                Some(v) => v,
                None => {
                    return None;
                },
            };
            total = match total.checked_add(amount) {
                Some(v) => v,
                None => {
                    return None;
                },
            };
            cur = end;
        }
        Some(total)
    }

    /// The number of halvings since the start, before the cap is applied,
    /// is the time elapsed divided by the length of an interval.
    proof fn lemma_completed(&self, start: int, t: int)
        requires
            self.valid(),
        ensures
            self.period_index(start, t) == {
                let elapsed = if t > start {
                    t - start
                } else {
                    0
                };
                let completed = elapsed / (86400 * self.interval_days);
                if completed < self.max_periods {
                    completed
                } else {
                    self.max_periods as int
                }
            },
    {
        if t > start {
            lemma_div_denominator(t - start, 86400, self.interval_days as int);
        }
    }

    /// The number of halvings never goes down as time passes.
    proof fn lemma_period_index_monotone(&self, start: int, t1: int, t2: int)
        requires
            self.valid(),
            t1 <= t2,
        ensures
            0 <= self.period_index(start, t1) <= self.period_index(start, t2),
    {
        let d1 = if t1 > start {
            (t1 - start) / 86400
        } else {
            0
        };
        let d2 = if t2 > start {
            (t2 - start) / 86400
        } else {
            0
        };
        if t1 > start {
            lemma_div_is_ordered(t1 - start, t2 - start, 86400);
            lemma_div_pos_is_pos(t1 - start, 86400);
        } else if t2 > start {
            lemma_div_pos_is_pos(t2 - start, 86400);
        }
        lemma_div_is_ordered(d1, d2, self.interval_days as int);
        lemma_div_pos_is_pos(d1, self.interval_days as int);
    }

    /// Once 64 halvings or the schedule's maximum have been reached, the rate
    /// stays as it is.
    proof fn lemma_rate_settled(&self, start: int, t1: int, t2: int)
        requires
            self.valid(),
            t1 <= t2,
            self.period_index(start, t1) >= 64 || self.period_index(start, t1)
                == self.max_periods,
        ensures
            self.rate_at(start, t2) == self.rate_at(start, t1),
    {
        self.lemma_period_index_monotone(start, t1, t2);
        let p1 = self.period_index(start, t1);
        let p2 = self.period_index(start, t2);
        if p1 != p2 {
            lemma_pow2_exceeds_u64(p1 as nat);
            lemma_pow2_exceeds_u64(p2 as nat);
            lemma_small_div_is_zero(self.base_rate as int, pow2(p1 as nat) as int);
            lemma_small_div_is_zero(self.base_rate as int, pow2(p2 as nat) as int);
        }
    }

    /// Length of one interval in seconds.
    pub open spec fn interval_seconds(&self) -> int {
        86400 * self.interval_days()
    }

    /// Within the `k`-th interval after the start, `k` halvings apply, or
    /// the schedule's maximum where that is less.
    pub proof fn lemma_rate_within_interval(&self, start: int, k: int, t: int)
        requires
            self.valid(),
            k >= 0,
            start + k * self.interval_seconds() <= t < start + (k + 1) * self.interval_seconds(),
        ensures
            self.period_index(start, t) == if k < self.max_periods() {
                k
            } else {
                self.max_periods() as int
            },
    {
        let span = self.interval_seconds();
        self.lemma_completed(start, t);
        lemma_mul_nonnegative(k, span);
        lemma_mul_is_distributive_add_other_way(span, k, 1);
        lemma_mul_is_commutative(span, k);
        let e = t - start;
        lemma_fundamental_div_mod_converse_div(e, span, k, e - k * span);
    }

    /// Yield over a stretch of time that crosses one halving is the sum of
    /// two parts, each at its own rate: the units times the rate per second
    /// before the halving times the seconds before it, and the same for the
    /// time after it. It is not one rate applied to the whole stretch.
    pub proof fn lemma_accrued_across_halving(&self, start: int, units: int, k: int, from: int, to: int)
        requires
            self.valid(),
            k >= 1,
            start + (k - 1) * self.interval_seconds() <= from <= start + k
                * self.interval_seconds(),
            start + k * self.interval_seconds() <= to <= start + (k + 1)
                * self.interval_seconds(),
        ensures
            ({
                let boundary = start + k * self.interval_seconds();
                let before = self.rate_in_period(
                    if k - 1 < self.max_periods() {
                        k - 1
                    } else {
                        self.max_periods() as int
                    },
                );
                let after = self.rate_in_period(
                    if k < self.max_periods() {
                        k
                    } else {
                        self.max_periods() as int
                    },
                );
                self.accrued(start, units, from, to) == units * (before / 86400) * (boundary
                    - from) + units * (after / 86400) * (to - boundary)
            }),
    {
        let boundary = start + k * self.interval_seconds();
        let before = self.rate_in_period(
            if k - 1 < self.max_periods() {
                k - 1
            } else {
                self.max_periods() as int
            },
        );
        let after = self.rate_in_period(
            if k < self.max_periods() {
                k
            } else {
                self.max_periods() as int
            },
        );
        assert forall|s: int| from <= s < boundary implies self.rate_at(start, s) == before by {
            lemma_mul_is_distributive_add_other_way(self.interval_seconds(), k - 1, 1);
            self.lemma_rate_within_interval(start, k - 1, s);
        }
        assert forall|s: int| boundary <= s < to implies self.rate_at(start, s) == after by {
            self.lemma_rate_within_interval(start, k, s);
        }
        self.lemma_accrued_splits(start, units, from, boundary, to);
        self.lemma_accrued_constant(start, units, from, boundary, before);
        self.lemma_accrued_constant(start, units, boundary, to, after);
    }

    /// The rate is never negative.
    proof fn lemma_rate_nonnegative(&self, start: int, t: int)
        ensures
            self.rate_at(start, t) >= 0,
            self.rate_at(start, t) / 86400 >= 0,
    {
        lemma_div_pos_is_pos(self.rate_at(start, t), 86400);
    }

    /// Units that are not negative in number earn no negative yield.
    pub proof fn lemma_accrued_nonnegative(&self, start: int, units: int, from: int, to: int)
        requires
            units >= 0,
        ensures
            self.accrued(start, units, from, to) >= 0,
        decreases to - from,
    {
        if to > from {
            self.lemma_accrued_nonnegative(start, units, from, to - 1);
            self.lemma_rate_nonnegative(start, to - 1);
            lemma_mul_nonnegative(units, self.rate_at(start, to - 1) / 86400);
        }
    }

    /// The yield over a stretch of time is the yield over its first part
    /// plus the yield over the rest, wherever the stretch is cut.
    pub proof fn lemma_accrued_splits(&self, start: int, units: int, from: int, mid: int, to: int)
        requires
            from <= mid <= to,
        ensures
            self.accrued(start, units, from, to) == self.accrued(start, units, from, mid)
                + self.accrued(start, units, mid, to),
        decreases to - mid,
    {
        if to > mid {
            self.lemma_accrued_splits(start, units, from, mid, to - 1);
        }
    }

    /// Over a stretch of time on which the rate does not change, the yield
    /// is the units, times the rate per second, times the seconds.
    pub proof fn lemma_accrued_constant(&self, start: int, units: int, from: int, to: int, rate: int)
        requires
            from <= to,
            forall|s: int| from <= s < to ==> self.rate_at(start, s) == rate,
        ensures
            self.accrued(start, units, from, to) == units * (rate / 86400) * (to - from),
        decreases to - from,
    {
        if to > from {
            self.lemma_accrued_constant(start, units, from, to - 1, rate);
            let per_unit = units * (rate / 86400);
            assert(per_unit * (to - 1 - from) + per_unit == per_unit * (to - from)) by {
                lemma_mul_is_distributive_add(per_unit, to - 1 - from, 1);
            }
        } else {
            lemma_mul_basics(units * (rate / 86400));
        }
    }
}

/// Two to a power of 64 or more is beyond every 64-bit number.
proof fn lemma_pow2_exceeds_u64(e: nat)
    requires
        e >= 64,
    ensures
        pow2(e) > u64::MAX,
{
    lemma2_to64();
    if e > 64 {
        lemma_pow2_strictly_increases(64, e);
    }
}

/// A non-negative number divided by a larger one is zero.
proof fn lemma_small_div_is_zero(x: int, d: int)
    requires
        0 <= x < d,
    ensures
        x / d == 0,
{
    lemma_basic_div(x, d);
}

} // verus!
