use vstd::prelude::*;

use crate::arith::{checked_add_u64, checked_div_u64, checked_mul_u64, checked_sub_u64};
use crate::errors::ErrorCode;
use crate::model::{schedule_within_entitlement, Pool, VestingSchedule};
use vstd::arithmetic::div_mod::{
    lemma_div_by_multiple, lemma_div_is_ordered, lemma_fundamental_div_mod, lemma_mod_bound,
};
use vstd::arithmetic::mul::{lemma_mul_inequality, lemma_mul_is_commutative};

verus! {

/// The instant at which a schedule is fully vested.
pub open spec fn vesting_end(p: Pool, s: VestingSchedule) -> int {
    s.start_time + p.vest_duration
}

/// Seconds of vesting accrued at `now`, rounded down to whole slice
/// periods; partial periods do not accrue. Meaningful for
/// `s.start_time <= now` and a nonzero slice period.
pub open spec fn vested_seconds_at(p: Pool, s: VestingSchedule, now: u64) -> int {
    ((now - s.start_time) / (p.vest_slice_period_seconds as int)) * (
    p.vest_slice_period_seconds as int)
}

/// Gross amount vested at `now` inside the linear region: the linear share
/// of the entitlement plus the up-front slice. The up-front slice is added
/// on top of the linear share, not netted against it; the formula is
/// normative down to the token unit.
pub open spec fn vested_total_at(p: Pool, s: VestingSchedule, now: u64) -> int {
    s.amount * vested_seconds_at(p, s, now) / (p.vest_duration as int) + s.amount_init_vested
}

/// The claimable balance at `now`: nothing before the schedule starts, the
/// whole unclaimed remainder once the vesting duration has passed, and the
/// gross vested amount net of prior withdrawals in between.
pub open spec fn claimable_at(p: Pool, s: VestingSchedule, now: u64) -> int {
    if now < s.start_time {
        0
    } else if now > vesting_end(p, s) {
        s.amount - s.amount_claimed
    } else {
        vested_total_at(p, s, now) - s.amount_claimed
    }
}

/// Exactly when the checked arithmetic inside `compute_claimable_amount`
/// fails: an intermediate value outside `u64`, a zero `vest_duration` or
/// `vest_slice_period_seconds` consulted in the linear region, or prior
/// withdrawals exceeding the gross vested amount.
pub open spec fn claimable_fails(p: Pool, s: VestingSchedule, now: u64) -> bool {
    if now < s.start_time {
        false
    } else if vesting_end(p, s) > u64::MAX {
        true
    } else if now > vesting_end(p, s) {
        s.amount_claimed > s.amount
    } else {
        ||| p.vest_slice_period_seconds == 0
        ||| p.vest_duration == 0
        ||| s.amount * vested_seconds_at(p, s, now) > u64::MAX
        ||| vested_total_at(p, s, now) > u64::MAX
        ||| s.amount_claimed > vested_total_at(p, s, now)
    }
}

/// The claimable balance of `schedule` under `pool` at `current_time`.
///
/// Pure: no field is mutated. Returns `Ok` with the exact claimable
/// balance whenever every checked step fits, and `ArithmeticOverflow`
/// precisely in the cases `claimable_fails` describes. Before the
/// schedule's start the result is exactly 0; after the vesting duration
/// has passed it is exactly the unclaimed remainder.
pub fn compute_claimable_amount(pool: &Pool, schedule: &VestingSchedule, current_time: u64) -> (r:
    Result<u64, ErrorCode>)
    ensures
        !claimable_fails(*pool, *schedule, current_time) ==> r is Ok && r->Ok_0
            == claimable_at(*pool, *schedule, current_time),
        claimable_fails(*pool, *schedule, current_time) ==> r == Err::<u64, ErrorCode>(
            ErrorCode::ArithmeticOverflow,
        ),
        current_time < schedule.start_time ==> r == Ok::<u64, ErrorCode>(0u64),
        schedule.amount_claimed <= schedule.amount && vesting_end(*pool, *schedule) <= u64::MAX
            && current_time > vesting_end(*pool, *schedule) ==> r == Ok::<u64, ErrorCode>(
            (schedule.amount - schedule.amount_claimed) as u64,
        ),
{
    if current_time < schedule.start_time {
        return Ok(0);
    }
    let end: u64 = match checked_add_u64(schedule.start_time, pool.vest_duration) {
        Ok(v) => v,
        Err(e) => {
            return Err(e);
        },
    };
    if current_time > end {
        return checked_sub_u64(schedule.amount, schedule.amount_claimed);
    }
    let time_from_start: u64 = current_time - schedule.start_time;
    let vested_slice_periods: u64 = match checked_div_u64(
        time_from_start,
        pool.vest_slice_period_seconds,
    ) {
        Ok(v) => v,
        Err(e) => {
            return Err(e);
        },
    };
    proof {
        lemma_fundamental_div_mod(
            time_from_start as int,
            pool.vest_slice_period_seconds as int,
        );
        lemma_mod_bound(time_from_start as int, pool.vest_slice_period_seconds as int);
    }
    let vested_seconds: u64 = match checked_mul_u64(
        vested_slice_periods,
        pool.vest_slice_period_seconds,
    ) {
        Ok(v) => v,
        Err(e) => {
            return Err(e);
        },
    };
    let scaled: u64 = match checked_mul_u64(schedule.amount, vested_seconds) {
        Ok(v) => v,
        Err(e) => {
            return Err(e);
        },
    };
    let linear: u64 = match checked_div_u64(scaled, pool.vest_duration) {
        Ok(v) => v,
        Err(e) => {
            return Err(e);
        },
    };
    let vested_total: u64 = match checked_add_u64(linear, schedule.amount_init_vested) {
        Ok(v) => v,
        Err(e) => {
            return Err(e);
        },
    };
    checked_sub_u64(vested_total, schedule.amount_claimed)
}

/// With no up-front slice, the claimable balance never exceeds the
/// unclaimed remainder of the entitlement: what a claim can withdraw is
/// always covered by `amount`.
pub proof fn lemma_claimable_within_remainder(p: Pool, s: VestingSchedule, now: u64)
    requires
        s.amount_init_vested == 0,
        schedule_within_entitlement(s),
        !claimable_fails(p, s, now),
    ensures
        claimable_at(p, s, now) <= s.amount - s.amount_claimed,
{
    if s.start_time <= now && now <= vesting_end(p, s) {
        let period = p.vest_slice_period_seconds as int;
        let duration = p.vest_duration as int;
        let elapsed = now - s.start_time;
        let q = elapsed / period;
        let vs = vested_seconds_at(p, s, now);
        lemma_fundamental_div_mod(elapsed, period);
        lemma_mod_bound(elapsed, period);
        lemma_mul_is_commutative(period, q);
        assert(vs == q * period);
        assert(vs <= elapsed);
        lemma_mul_inequality(vs, duration, s.amount as int);
        lemma_mul_is_commutative(vs, s.amount as int);
        lemma_mul_is_commutative(duration, s.amount as int);
        assert(s.amount * vs <= s.amount * duration);
        lemma_div_is_ordered(s.amount * vs, s.amount * duration, duration);
        lemma_div_by_multiple(s.amount as int, duration);
        assert((s.amount * duration) / duration == s.amount);
        assert(vested_total_at(p, s, now) <= s.amount);
    }
}

/// The claimable balance plus the already-claimed amount never decreases as
/// time advances between claims.
///
/// Two families of inputs are excluded, on which the property genuinely
/// fails. When `t1` lies before the schedule's start, the claimable
/// balance at `t2` must already cover the recorded withdrawals (it cannot
/// be negative); a schedule reached only through this ledger's operations
/// satisfies that, since nothing can be withdrawn before the start. And a
/// schedule with an up-front slice loses that slice the instant the
/// vesting duration passes — the slice sits on top of the fully linear
/// share just before the end, while the fully-vested remainder no longer
/// counts it — so a pair of instants straddling the end is covered only
/// when the slice is zero.
pub proof fn lemma_claimable_monotonic(p: Pool, s: VestingSchedule, t1: u64, t2: u64)
    requires
        p.vest_slice_period_seconds >= 1,
        p.vest_duration >= 1,
        t1 <= t2,
        t1 < s.start_time ==> claimable_at(p, s, t2) >= 0,
        s.start_time <= t1 <= vesting_end(p, s) < t2 ==> s.amount_init_vested == 0,
    ensures
        claimable_at(p, s, t1) + s.amount_claimed <= claimable_at(p, s, t2) + s.amount_claimed,
{
    let period = p.vest_slice_period_seconds as int;
    let duration = p.vest_duration as int;
    let amount = s.amount as int;
    if t2 < s.start_time {
        // both zero
    } else if t1 < s.start_time {
        // claimable at t1 is 0; the hypothesis bounds the other side
    } else if t1 > vesting_end(p, s) {
        // both fully vested
    } else {
        let e1 = t1 - s.start_time;
        let q1 = e1 / period;
        let vs1 = vested_seconds_at(p, s, t1);
        lemma_fundamental_div_mod(e1, period);
        lemma_mod_bound(e1, period);
        lemma_mul_is_commutative(period, q1);
        assert(vs1 == q1 * period);
        assert(vs1 <= e1);
        if t2 <= vesting_end(p, s) {
            let e2 = t2 - s.start_time;
            let q2 = e2 / period;
            let vs2 = vested_seconds_at(p, s, t2);
            lemma_div_is_ordered(e1, e2, period);
            lemma_mul_inequality(q1, q2, period);
            assert(vs1 <= vs2);
            lemma_mul_inequality(vs1, vs2, amount);
            lemma_mul_is_commutative(vs1, amount);
            lemma_mul_is_commutative(vs2, amount);
            assert(amount * vs1 <= amount * vs2);
            lemma_div_is_ordered(amount * vs1, amount * vs2, duration);
        } else {
            // t2 is past the end: the linear share at t1 is at most the
            // whole entitlement
            lemma_mul_inequality(vs1, duration, amount);
            lemma_mul_is_commutative(vs1, amount);
            lemma_mul_is_commutative(duration, amount);
            assert(amount * vs1 <= amount * duration);
            lemma_div_is_ordered(amount * vs1, amount * duration, duration);
            lemma_div_by_multiple(amount, duration);
            assert((amount * duration) / duration == amount);
        }
    }
}

} // verus!
