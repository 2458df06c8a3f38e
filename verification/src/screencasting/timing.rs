//! When frames are due.

use crate::screencasting::params::Fraction;
use vstd::prelude::*;

verus! {

/// A span of time, or a point in time since some fixed one.
#[derive(Clone, Copy, Debug, PartialEq, Eq, Structural)]
pub struct Timespan {
    pub nanos: u128,
}

/// The longest span that can be told.
pub const MAX_NANOS: u128 = 18_446_744_073_709_551_615_999_999_999;

/// An allowance of 0.1 ms for errors of the presentation time.
pub const CAST_DELAY_ALLOWANCE_NANOS: u128 = 100_000;

impl Timespan {
    pub open spec fn of_micros(micros: int) -> Timespan {
        Timespan { nanos: (micros * 1000) as u128 }
    }

    pub fn zero() -> (span: Timespan)
        ensures
            span.nanos == 0,
    {
        Timespan { nanos: 0 }
    }

    pub fn from_micros(micros: u64) -> (span: Timespan)
        ensures
            span == Timespan::of_micros(micros as int),
    {
        Timespan { nanos: micros as u128 * 1000 }
    }

    /// How much longer this is than `other`, if it is.
    pub fn saturating_sub(self, other: Timespan) -> (difference: Timespan)
        ensures
            difference.nanos == if self.nanos >= other.nanos {
                self.nanos - other.nanos
            } else {
                0
            },
    {
        if self.nanos >= other.nanos {
            Timespan { nanos: self.nanos - other.nanos }
        } else {
            Timespan { nanos: 0 }
        }
    }
}

/// The shortest time between frames at a rate, in whole microseconds. A rate with a zero in it
/// sets no limit.
pub open spec fn frame_interval(rate: Fraction) -> Option<Timespan> {
    if rate.num == 0 || rate.denom == 0 {
        None
    } else {
        Some(Timespan::of_micros((1_000_000 * rate.denom) / (rate.num as int)))
    }
}

/// The shortest time between frames at a rate, in whole microseconds. A rate with a zero in it
/// sets no limit.
pub fn negotiated_frame_interval(rate: Fraction) -> (interval: Option<Timespan>)
    ensures
        interval == frame_interval(rate),
{
    if rate.num == 0 || rate.denom == 0 {
        return None;
    }
    Some(Timespan::from_micros(1_000_000 * rate.denom as u64 / rate.num as u64))
}

/// How much too soon a frame is after the last one. The first frame is never too soon, and neither
/// is one that seems to lie before the last one.
pub open spec fn extra_delay(last: Timespan, min: Timespan, target: Timespan) -> int {
    if last.nanos == 0 || target.nanos < last.nanos || target.nanos - last.nanos >= min.nanos {
        0
    } else {
        min.nanos - (target.nanos - last.nanos)
    }
}

/// How much too soon a frame is after the last one.
pub fn compute_extra_delay(last: Timespan, min: Timespan, target: Timespan) -> (delay: Timespan)
    ensures
        delay.nanos == extra_delay(last, min, target),
{
    if last.nanos == 0 {
        return Timespan::zero();
    }
    if target.nanos < last.nanos {
        // In case it was an overflow, recording the frame fixes it.
        return Timespan::zero();
    }
    let passed: u128 = target.nanos - last.nanos;
    if passed < min.nanos {
        return Timespan { nanos: min.nanos - passed };
    }
    Timespan::zero()
}

/// What to do with a frame.
#[derive(Clone, Copy, Debug, PartialEq, Eq, Structural)]
pub enum Due {
    Now,
    /// Skip it, and redraw at a later time.
    At(Timespan),
}

/// What to do with a frame that is to be presented at the given time.
pub open spec fn due(last: Timespan, min: Timespan, target: Timespan) -> Due {
    if extra_delay(last, min, target) >= CAST_DELAY_ALLOWANCE_NANOS {
        Due::At(Timespan { nanos: (target.nanos + extra_delay(last, min, target)) as u128 })
    } else {
        Due::Now
    }
}

/// Whether the time can be told that a frame is put off to, if it is.
pub open spec fn can_tell_due(last: Timespan, min: Timespan, target: Timespan) -> bool {
    let delay = extra_delay(last, min, target);
    delay >= CAST_DELAY_ALLOWANCE_NANOS ==> target.nanos + delay <= MAX_NANOS
}

/// What to do with a frame that is to be presented at the given time.
pub fn check_time(last: Timespan, min: Timespan, target: Timespan) -> (what: Due)
    requires
        can_tell_due(last, min, target),
    ensures
        what == due(last, min, target),
{
    let delay = compute_extra_delay(last, min, target);
    if delay.nanos >= CAST_DELAY_ALLOWANCE_NANOS {
        Due::At(Timespan { nanos: target.nanos + delay.nanos })
    } else {
        Due::Now
    }
}

/// A frame is never shown sooner after the last one than the limit and the allowance permit.
pub proof fn frames_keep_their_distance(last: Timespan, min: Timespan, target: Timespan)
    requires
        last.nanos != 0,
        last.nanos <= target.nanos,
        due(last, min, target) is Now,
    ensures
        target.nanos - last.nanos > min.nanos - CAST_DELAY_ALLOWANCE_NANOS,
{
}

/// A frame at the time that a redraw was put off to is not put off again.
pub proof fn postponed_frame_is_due(last: Timespan, min: Timespan, target: Timespan)
    requires
        can_tell_due(last, min, target),
    ensures
        due(last, min, target) matches Due::At(time) ==> {
            &&& time.nanos > target.nanos
            &&& time.nanos - last.nanos == min.nanos
            &&& due(last, min, time) is Now
        },
{
}

/// A higher rate never means a longer interval.
pub proof fn higher_rate_means_shorter_interval(slow: Fraction, fast: Fraction)
    requires
        slow.num != 0,
        slow.denom != 0,
        fast.denom != 0,
        slow.num * fast.denom <= fast.num * slow.denom,
    ensures
        frame_interval(slow) is Some,
        frame_interval(fast) is Some,
        frame_interval(fast)->0.nanos <= frame_interval(slow)->0.nanos,
{
    let (sn, sd, fne, fd) = (slow.num as int, slow.denom as int, fast.num as int, fast.denom as int);
    assert(fne > 0) by {
        assert(sn * fd > 0) by (nonlinear_arith)
            requires
                sn > 0,
                fd > 0,
        ;
        if fne == 0 {
            assert(fne * sd == 0) by (nonlinear_arith)
                requires
                    fne == 0,
            ;
        }
    }
    let q = (1_000_000 * fd) / fne;
    let p = (1_000_000 * sd) / sn;
    vstd::arithmetic::div_mod::lemma_fundamental_div_mod(1_000_000 * fd, fne);
    vstd::arithmetic::div_mod::lemma_fundamental_div_mod(1_000_000 * sd, sn);
    vstd::arithmetic::div_mod::lemma_mod_bound(1_000_000 * fd, fne);
    vstd::arithmetic::div_mod::lemma_mod_bound(1_000_000 * sd, sn);
    assert(q * fne <= 1_000_000 * fd) by (nonlinear_arith)
        requires
            1_000_000 * fd == fne * q + (1_000_000 * fd) % fne,
            (1_000_000 * fd) % fne >= 0,
    ;
    assert(1_000_000 * sd < (p + 1) * sn) by (nonlinear_arith)
        requires
            1_000_000 * sd == sn * p + (1_000_000 * sd) % sn,
            (1_000_000 * sd) % sn < sn,
    ;
    assert(q < p + 1) by (nonlinear_arith)
        requires
            q * fne <= 1_000_000 * fd,
            1_000_000 * sd < (p + 1) * sn,
            sn * fd <= fne * sd,
            sn > 0,
            fne > 0,
            fd > 0,
            sd > 0,
    ;
    let (m, n) = (1_000_000 * fd, 1_000_000 * sd);
    assert(0 <= q <= m) by (nonlinear_arith)
        requires
            q * fne <= m,
            m == fne * q + m % fne,
            m % fne < fne,
            fne >= 1,
            m >= 0,
    ;
    assert(0 <= p <= n) by (nonlinear_arith)
        requires
            n == sn * p + n % sn,
            0 <= n % sn < sn,
            sn >= 1,
            n >= 0,
    ;
}

/// The interval of a rate is the length of one frame, rounded down to a whole number of
/// microseconds: as many of it as there are frames fit into the time that they have, and with one
/// microsecond more they do not.
pub proof fn interval_is_the_length_of_a_frame(rate: Fraction)
    ensures
        rate.num == 0 || rate.denom == 0 <==> frame_interval(rate) is None,
        frame_interval(rate) matches Some(interval) ==> {
            let micros = interval.nanos as int / 1000;
            &&& interval.nanos == micros * 1000
            &&& micros * rate.num <= 1_000_000 * rate.denom
            &&& 1_000_000 * rate.denom < (micros + 1) * rate.num
        },
{
    if rate.num != 0 && rate.denom != 0 {
        let (n, d) = (rate.num as int, 1_000_000 * rate.denom);
        let q = d / n;
        vstd::arithmetic::div_mod::lemma_fundamental_div_mod(d, n);
        vstd::arithmetic::div_mod::lemma_mod_bound(d, n);
        assert(q * n <= d && d < (q + 1) * n) by (nonlinear_arith)
            requires
                d == n * q + d % n,
                0 <= d % n < n,
        ;
        assert(0 <= q <= d) by (nonlinear_arith)
            requires
                q * n <= d,
                d < (q + 1) * n,
                n >= 1,
                d >= 0,
        ;
        assert((q * 1000) / 1000 == q);
    }
}

/// What `negotiated_frame_interval` returns is the length of one frame, rounded down to a whole
/// number of microseconds.
pub proof fn negotiated_interval_is_the_length_of_a_frame(rate: Fraction, interval: Option<Timespan>)
    requires
        call_ensures(negotiated_frame_interval, (rate,), interval),
    ensures
        interval is Some <==> rate.num > 0 && rate.denom > 0,
        interval matches Some(interval) ==> {
            let micros = interval.nanos as int / 1000;
            &&& interval.nanos == micros * 1000
            &&& micros * rate.num <= 1_000_000 * rate.denom
            &&& 1_000_000 * rate.denom < (micros + 1) * rate.num
        },
{
    interval_is_the_length_of_a_frame(rate);
}

/// A frame is too soon by what is left of the least distance to the last one. The first frame, one
/// that lies before the last one, and one that keeps the distance are not too soon.
pub proof fn delay_makes_up_the_distance(last: Timespan, min: Timespan, target: Timespan)
    ensures
        extra_delay(last, min, target) >= 0,
        extra_delay(last, min, target) > 0 <==> last.nanos > 0 && last.nanos <= target.nanos
            && target.nanos < last.nanos + min.nanos,
        extra_delay(last, min, target) > 0 ==> target.nanos + extra_delay(last, min, target)
            == last.nanos + min.nanos,
{
}

/// What `compute_extra_delay` returns takes a frame that is too soon to the least distance from the
/// last one.
pub proof fn computed_delay_makes_up_the_distance(
    last: Timespan,
    min: Timespan,
    target: Timespan,
    delay: Timespan,
)
    requires
        call_ensures(compute_extra_delay, (last, min, target), delay),
    ensures
        delay.nanos > 0 <==> last.nanos > 0 && last.nanos <= target.nanos && target.nanos
            < last.nanos + min.nanos,
        delay.nanos > 0 ==> target.nanos + delay.nanos == last.nanos + min.nanos,
{
}

/// A frame is put off exactly if there was one before that it does not lie before, and if it is at
/// least a tenth of a millisecond closer to it than permitted. It is then put off to the time at
/// which it keeps the distance.
pub proof fn frames_are_put_off_to_keep_the_distance(
    last: Timespan,
    min: Timespan,
    target: Timespan,
    what: Due,
)
    requires
        can_tell_due(last, min, target),
        call_ensures(check_time, (last, min, target), what),
    ensures
        what is At <==> last.nanos > 0 && last.nanos <= target.nanos && target.nanos + 100_000
            <= last.nanos + min.nanos,
        what matches Due::At(time) ==> time.nanos == last.nanos + min.nanos,
{
}

/// Every time of at most the longest span can be told, and none after it: that span has all the
/// seconds of a 64-bit number and all the nanoseconds of a further second.
pub proof fn longest_span_is_that_of_whole_seconds()
    ensures
        MAX_NANOS == u64::MAX * 1_000_000_000 + 999_999_999,
        CAST_DELAY_ALLOWANCE_NANOS == 100_000,
{
}

/// A number of microseconds is a thousand times as many nanoseconds.
pub proof fn microseconds_are_thousands(micros: u64, span: Timespan)
    requires
        call_ensures(Timespan::from_micros, (micros,), span),
    ensures
        span.nanos == micros * 1000,
{
}

/// A span and what a longer one has more make up the longer one; a shorter one has nothing more.
pub proof fn difference_makes_up_the_longer(a: Timespan, b: Timespan, difference: Timespan)
    requires
        call_ensures(Timespan::saturating_sub, (a, b), difference),
    ensures
        b.nanos <= a.nanos ==> b.nanos + difference.nanos == a.nanos,
        b.nanos > a.nanos ==> difference.nanos == 0,
{
}

/// The time of a frame that is put off can be told as long as it lies in the range of times. Of any
/// other frame nothing has to be told.
pub proof fn due_times_can_be_told(last: Timespan, min: Timespan, target: Timespan)
    ensures
        can_tell_due(last, min, target) <==> (last.nanos > 0 && last.nanos <= target.nanos
            && target.nanos + 100_000 <= last.nanos + min.nanos ==> last.nanos + min.nanos
            <= MAX_NANOS),
{
}

} // verus!
