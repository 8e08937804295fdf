//! The amount calculator: pure integer arithmetic that splits a locked
//! amount into a vested (receiver) and an unvested (sender) part at a given
//! time, for continuous linear accrual and for step-wise accrual.
//!
//! Both calculators round the receiver's share down and hand the remainder
//! to the sender, so the two parts always sum exactly to the deposit.

use vstd::arithmetic::div_mod::lemma_div_by_self;
use vstd::arithmetic::div_mod::lemma_div_decreases;
use vstd::arithmetic::div_mod::lemma_div_is_ordered;
use vstd::arithmetic::div_mod::lemma_div_nonincreasing;
use vstd::arithmetic::div_mod::lemma_div_pos_is_pos;
use vstd::arithmetic::div_mod::lemma_mod_multiples_basic;
use vstd::arithmetic::div_mod::lemma_multiply_divide_le;
use vstd::arithmetic::div_mod::lemma_small_mod;
use vstd::prelude::*;

use crate::types::Rate;
use crate::types::rate_seconds;

verus! {

/// The split of a deposit at one point in time: what the sender could
/// reclaim and what the receiver has accrued.
#[derive(Clone, Copy, Debug, PartialEq, Eq, Structural)]
pub struct StreamAmounts {
    pub sender_amount: i128,
    pub receiver_amount: i128,
}

/// The receiver's share of `amount` under continuous linear accrual:
/// nothing before `start`, everything from `end` on, and in between the
/// elapsed fraction of the schedule, rounded down.
pub open spec fn linear_receiver(start: int, end: int, now: int, amount: int) -> int {
    if now <= start {
        0
    } else if now >= end {
        amount
    } else {
        (amount * (now - start)) / (end - start)
    }
}

/// The number of whole or partial accrual periods a schedule of length
/// `dur` contains: the quotient by `period`, rounded up.
pub open spec fn total_periods(dur: int, period: int) -> int {
    if dur % period == 0 {
        dur / period
    } else {
        dur / period + 1
    }
}

/// The receiver's share of `amount` under step-wise accrual with periods of
/// `period` seconds: nothing before `start`, everything from `end` on, and
/// in between the fraction of completed periods, rounded down.  Full
/// settlement at `end` holds exactly, independent of period rounding.
pub open spec fn rate_receiver(start: int, end: int, now: int, period: int, amount: int) -> int {
    if now <= start {
        0
    } else if now >= end {
        amount
    } else {
        (amount * ((now - start) / period)) / total_periods(end - start, period)
    }
}

/// A schedule of positive length spans at least one accrual period.
pub proof fn lemma_total_periods_pos(dur: int, period: int)
    requires
        0 < dur,
        0 < period,
    ensures
        1 <= total_periods(dur, period),
{
    if dur % period == 0 {
        if dur < period {
            lemma_small_mod(dur as nat, period as nat);
        }
        lemma_div_is_ordered(period, dur, period);
        lemma_div_by_self(period);
    } else {
        lemma_div_pos_is_pos(dur, period);
    }
}

/// The receiver's share never leaves `[0, amount]` under linear accrual.
pub proof fn lemma_linear_receiver_in_range(start: int, end: int, now: int, amount: int)
    requires
        start < end,
        0 < amount,
    ensures
        0 <= linear_receiver(start, end, now, amount) <= amount,
{
    if start < now < end {
        let elapsed = now - start;
        let dur = end - start;
        assert(amount * elapsed <= dur * amount) by (nonlinear_arith)
            requires
                0 < amount,
                0 < elapsed <= dur,
        ;
        assert(0 <= amount * elapsed) by (nonlinear_arith)
            requires
                0 < amount,
                0 < elapsed,
        ;
        lemma_multiply_divide_le(amount * elapsed, dur, amount);
        lemma_div_is_ordered(0, amount * elapsed, dur);
    }
}

/// The receiver's share never leaves `[0, amount]` under step-wise accrual.
pub proof fn lemma_rate_receiver_in_range(start: int, end: int, now: int, period: int, amount: int)
    requires
        start < end,
        0 < period,
        0 < amount,
    ensures
        0 <= rate_receiver(start, end, now, period, amount) <= amount,
{
    if start < now < end {
        let dur = end - start;
        let elapsed = (now - start) / period;
        let total = total_periods(dur, period);
        lemma_div_is_ordered(0, now - start, period);
        lemma_div_is_ordered(now - start, dur, period);
        assert(0 <= elapsed <= total);
        lemma_total_periods_pos(dur, period);
        assert(0 <= amount * elapsed) by (nonlinear_arith)
            requires
                0 < amount,
                0 <= elapsed,
        ;
        assert(amount * elapsed <= total * amount) by (nonlinear_arith)
            requires
                0 < amount,
                0 <= elapsed <= total,
        ;
        lemma_multiply_divide_le(amount * elapsed, total, amount);
        lemma_div_is_ordered(0, amount * elapsed, total);
    }
}

/// Holding the schedule fixed, the receiver's share under linear accrual
/// never decreases as time advances.
pub proof fn lemma_linear_receiver_monotonic(
    start: int,
    end: int,
    now1: int,
    now2: int,
    amount: int,
)
    requires
        start < end,
        0 < amount,
        now1 <= now2,
    ensures
        linear_receiver(start, end, now1, amount) <= linear_receiver(start, end, now2, amount),
{
    lemma_linear_receiver_in_range(start, end, now1, amount);
    lemma_linear_receiver_in_range(start, end, now2, amount);
    if start < now1 < end && start < now2 < end {
        assert(amount * (now1 - start) <= amount * (now2 - start)) by (nonlinear_arith)
            requires
                0 < amount,
                0 <= now1 - start <= now2 - start,
        ;
        lemma_div_is_ordered(amount * (now1 - start), amount * (now2 - start), end - start);
    }
}

/// Holding the schedule fixed, the receiver's share under step-wise accrual
/// never decreases as time advances.
pub proof fn lemma_rate_receiver_monotonic(
    start: int,
    end: int,
    now1: int,
    now2: int,
    period: int,
    amount: int,
)
    requires
        start < end,
        0 < period,
        0 < amount,
        now1 <= now2,
    ensures
        rate_receiver(start, end, now1, period, amount) <= rate_receiver(
            start,
            end,
            now2,
            period,
            amount,
        ),
{
    lemma_rate_receiver_in_range(start, end, now1, period, amount);
    lemma_rate_receiver_in_range(start, end, now2, period, amount);
    if start < now1 < end && start < now2 < end {
        let total = total_periods(end - start, period);
        let elapsed1 = (now1 - start) / period;
        let elapsed2 = (now2 - start) / period;
        lemma_total_periods_pos(end - start, period);
        lemma_div_is_ordered(now1 - start, now2 - start, period);
        lemma_div_pos_is_pos(now1 - start, period);
        assert(amount * elapsed1 <= amount * elapsed2) by (nonlinear_arith)
            requires
                0 < amount,
                0 <= elapsed1 <= elapsed2,
        ;
        lemma_div_is_ordered(amount * elapsed1, amount * elapsed2, total);
    }
}

/// Splits `amount` between sender and receiver under continuous linear
/// accrual between `start_date` and `end_date`.
///
/// The cliff is not applied here: callers gate withdrawal on the cliff
/// before asking how much has vested, which keeps "how much has vested by
/// time t" independent from "is withdrawal currently permitted".
pub fn calculate_stream_amounts(
    start_date: u64,
    end_date: u64,
    _cliff_date: u64,
    now: u64,
    amount: i128,
) -> (r: StreamAmounts)
    requires
        start_date < end_date,
        0 < amount,
        amount * (end_date - start_date) <= i128::MAX,
    ensures
        r.receiver_amount == linear_receiver(
            start_date as int,
            end_date as int,
            now as int,
            amount as int,
        ),
        r.sender_amount + r.receiver_amount == amount,
        0 <= r.receiver_amount <= amount,
{
    proof {
        lemma_linear_receiver_in_range(start_date as int, end_date as int, now as int, amount as int);
    }
    if now <= start_date {
        StreamAmounts { sender_amount: amount, receiver_amount: 0 }
    } else if now >= end_date {
        StreamAmounts { sender_amount: 0, receiver_amount: amount }
    } else {
        let elapsed: u64 = now - start_date;
        let dur: u64 = end_date - start_date;
        proof {
            assert(amount * elapsed <= amount * dur) by (nonlinear_arith)
                requires
                    0 < amount,
                    0 <= elapsed <= dur,
            ;
        }
        let num: u128 = (amount as u128) * (elapsed as u128);
        let quotient: u128 = num / (dur as u128);
        proof {
            assert(num <= dur * amount) by (nonlinear_arith)
                requires
                    num == amount * elapsed,
                    0 < amount,
                    0 <= elapsed <= dur,
            ;
            lemma_multiply_divide_le(num as int, dur as int, amount as int);
        }
        let receiver: i128 = quotient as i128;
        StreamAmounts { sender_amount: amount - receiver, receiver_amount: receiver }
    }
}

/// Splits `amount` between sender and receiver under step-wise accrual with
/// periods of `rate` granularity between `start_date` and `end_date`.
///
/// As with linear accrual, the cliff is the caller's concern, and at or
/// after `end_date` the receiver's share is the whole deposit exactly.
pub fn calculate_vesting_amounts(
    start_date: u64,
    end_date: u64,
    _cliff_date: u64,
    now: u64,
    rate: Rate,
    amount: i128,
) -> (r: StreamAmounts)
    requires
        start_date < end_date,
        0 < amount,
        amount * (end_date - start_date) <= i128::MAX,
    ensures
        r.receiver_amount == rate_receiver(
            start_date as int,
            end_date as int,
            now as int,
            rate_seconds(rate),
            amount as int,
        ),
        r.sender_amount + r.receiver_amount == amount,
        0 <= r.receiver_amount <= amount,
{
    proof {
        lemma_rate_receiver_in_range(
            start_date as int,
            end_date as int,
            now as int,
            rate_seconds(rate),
            amount as int,
        );
    }
    if now <= start_date {
        StreamAmounts { sender_amount: amount, receiver_amount: 0 }
    } else if now >= end_date {
        StreamAmounts { sender_amount: 0, receiver_amount: amount }
    } else {
        let period: u64 = rate.seconds();
        let dur: u64 = end_date - start_date;
        let elapsed_periods: u64 = (now - start_date) / period;
        let total: u64 = if dur % period == 0 {
            dur / period
        } else {
            proof {
                if period == 1 {
                    lemma_mod_multiples_basic(dur as int, 1);
                }
                lemma_div_decreases(dur as int, period as int);
            }
            dur / period + 1
        };
        proof {
            lemma_div_is_ordered(now as int - start_date as int, dur as int, period as int);
            assert(elapsed_periods <= total);
            lemma_total_periods_pos(dur as int, period as int);
            lemma_div_nonincreasing(now as int - start_date as int, period as int);
            assert(elapsed_periods <= dur);
            assert(amount * elapsed_periods <= amount * dur) by (nonlinear_arith)
                requires
                    0 < amount,
                    0 <= elapsed_periods <= dur,
            ;
        }
        let num: u128 = (amount as u128) * (elapsed_periods as u128);
        let quotient: u128 = num / (total as u128);
        proof {
            assert(num <= total * amount) by (nonlinear_arith)
                requires
                    num == amount * elapsed_periods,
                    0 < amount,
                    0 <= elapsed_periods <= total,
            ;
            lemma_multiply_divide_le(num as int, total as int, amount as int);
        }
        let receiver: i128 = quotient as i128;
        StreamAmounts { sender_amount: amount - receiver, receiver_amount: receiver }
    }
}

} // verus!
