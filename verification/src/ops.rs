use vstd::prelude::*;

use crate::arith::{checked_add_u64, checked_div_u64, checked_mul_u64};
use crate::errors::ErrorCode;
use crate::model::{cap_invariant, schedule_within_entitlement, Pool, VestingSchedule};
use crate::vesting::{
    claimable_at, claimable_fails, compute_claimable_amount, lemma_claimable_within_remainder,
};

verus! {

/// The base-token entitlement one accepted bid produces: the fixed quote
/// deposit scaled by the exchange-rate percentage, truncating.
pub open spec fn bid_vest_amount(p: Pool) -> int {
    p.pool_every_quote_amount * p.pool_exchange_rate / 100
}

/// The slice of a bid's entitlement vested immediately at the claim-window
/// start: zero unless the pool sets an up-front rate.
pub open spec fn bid_init_vested(p: Pool) -> int {
    if p.vest_rate_init_vested > 0 {
        bid_vest_amount(p) * p.vest_rate_init_vested / 100
    } else {
        0
    }
}

/// Exactly when a bid is accepted: the participant holds no nonzero
/// schedule yet, the incremented share count keeps the aggregate intake
/// within the cap, and the entitlement arithmetic fits in `u64`.
pub open spec fn bid_accepts(p: Pool, s: VestingSchedule) -> bool {
    &&& s.amount == 0
    &&& p.total_shares + 1 <= u64::MAX
    &&& (p.total_shares + 1) * p.pool_every_quote_amount <= p.pool_quote_cap
    &&& p.pool_every_quote_amount * p.pool_exchange_rate <= u64::MAX
    &&& (p.vest_rate_init_vested > 0 ==> bid_vest_amount(p) * p.vest_rate_init_vested
        <= u64::MAX)
}

/// The checked steps of a bid that fail before or after the cap check, in
/// the order the operation performs them: the rejection is
/// `ArithmeticOverflow` rather than `CapFull` in precisely these cases.
pub open spec fn bid_overflows(p: Pool) -> bool {
    ||| p.total_shares + 1 > u64::MAX
    ||| (p.total_shares + 1) * p.pool_every_quote_amount > u64::MAX
    ||| ((p.total_shares + 1) * p.pool_every_quote_amount <= p.pool_quote_cap
        && p.pool_every_quote_amount * p.pool_exchange_rate > u64::MAX)
    ||| ((p.total_shares + 1) * p.pool_every_quote_amount <= p.pool_quote_cap
        && p.pool_every_quote_amount * p.pool_exchange_rate <= u64::MAX
        && p.vest_rate_init_vested > 0 && bid_vest_amount(p) * p.vest_rate_init_vested
        > u64::MAX)
}

/// Exactly when a bid is rejected for exceeding the cap: the incremented
/// share count, times the fixed deposit, fits in `u64` but exceeds the
/// pool's quote cap.
pub open spec fn bid_cap_rejects(p: Pool) -> bool {
    &&& p.total_shares + 1 <= u64::MAX
    &&& (p.total_shares + 1) * p.pool_every_quote_amount <= u64::MAX
    &&& (p.total_shares + 1) * p.pool_every_quote_amount > p.pool_quote_cap
}

/// Initializes a fresh pool record: every supplied field copied verbatim
/// and `total_shares` starting at zero, so the intake-cap invariant holds
/// from the start.
///
/// No arithmetic is performed and no relationship between the fields is
/// validated here; the issuer is responsible for a self-consistent
/// configuration. Persisting the record is the host's side.
pub fn create(
    base_mint: u64,
    base_vault: u64,
    quote_mint: u64,
    quote_vault: u64,
    start_time: u64,
    end_time: u64,
    claim_time: u64,
    pool_quote_cap: u64,
    pool_exchange_rate: u64,
    pool_every_quote_amount: u64,
    vest_cliff: u64,
    vest_duration: u64,
    vest_slice_period_seconds: u64,
    vest_rate_init_vested: u64,
    bump: u8,
) -> (p: Pool)
    ensures
        p == (Pool {
            base_mint,
            base_vault,
            quote_mint,
            quote_vault,
            start_time,
            end_time,
            claim_time,
            pool_quote_cap,
            pool_exchange_rate,
            pool_every_quote_amount,
            vest_cliff,
            vest_duration,
            vest_slice_period_seconds,
            vest_rate_init_vested,
            total_shares: 0u64,
            bump,
        }),
        cap_invariant(p),
{
    Pool {
        base_mint,
        base_vault,
        quote_mint,
        quote_vault,
        start_time,
        end_time,
        claim_time,
        pool_quote_cap,
        pool_exchange_rate,
        pool_every_quote_amount,
        vest_cliff,
        vest_duration,
        vest_slice_period_seconds,
        vest_rate_init_vested,
        total_shares: 0,
        bump,
    }
}

/// Registers a participant's one-time bid on `pool`, staging the mutations
/// into the two records it was handed.
///
/// On success the pool's share count has grown by exactly one, the
/// aggregate intake stays within the cap, and `schedule` is the fresh
/// entitlement: `bid_vest_amount` base units vesting from the pool's
/// `claim_time`, with `bid_init_vested` of them available up front and
/// nothing claimed yet. On any rejection both records are unchanged, so
/// the host can treat the operation plus its quote transfer of
/// `pool_every_quote_amount` units as one atomic unit, discarding the
/// staged records if the transfer fails.
pub fn bid(
    pool: &mut Pool,
    pool_id: u64,
    schedule: &mut VestingSchedule,
    participant: u64,
    bump: u8,
) -> (r: Result<(), ErrorCode>)
    ensures
        r is Ok <==> bid_accepts(*old(pool), *old(schedule)),
        r is Err ==> *final(pool) == *old(pool) && *final(schedule) == *old(schedule),
        old(schedule).amount > 0 ==> r == Err::<(), ErrorCode>(ErrorCode::AlreadyBid),
        old(schedule).amount == 0 && bid_overflows(*old(pool)) ==> r == Err::<(), ErrorCode>(
            ErrorCode::ArithmeticOverflow,
        ),
        old(schedule).amount == 0 && !bid_overflows(*old(pool)) && bid_cap_rejects(*old(pool))
            ==> r == Err::<(), ErrorCode>(ErrorCode::CapFull),
        r is Ok ==> *final(pool) == (Pool {
            total_shares: (old(pool).total_shares + 1) as u64,
            ..*old(pool)
        }),
        r is Ok ==> *final(schedule) == (VestingSchedule {
            authority: participant,
            pool: pool_id,
            start_time: old(pool).claim_time,
            amount: bid_vest_amount(*old(pool)) as u64,
            amount_init_vested: bid_init_vested(*old(pool)) as u64,
            amount_claimed: 0u64,
            bump,
        }),
        r is Ok ==> cap_invariant(*final(pool)),
{
    if schedule.amount > 0 {
        return Err(ErrorCode::AlreadyBid);
    }
    let new_shares: u64 = match checked_add_u64(pool.total_shares, 1) {
        Ok(v) => v,
        Err(e) => {
            return Err(e);
        },
    };
    let staged_intake: u64 = match checked_mul_u64(new_shares, pool.pool_every_quote_amount) {
        Ok(v) => v,
        Err(e) => {
            return Err(e);
        },
    };
    if staged_intake > pool.pool_quote_cap {
        return Err(ErrorCode::CapFull);
    }
    let scaled: u64 = match checked_mul_u64(pool.pool_every_quote_amount, pool.pool_exchange_rate) {
        Ok(v) => v,
        Err(e) => {
            return Err(e);
        },
    };
    let vest_amount: u64 = match checked_div_u64(scaled, 100) {
        Ok(v) => v,
        Err(e) => {
            return Err(e);
        },
    };
    let amount_init_vested: u64 = if pool.vest_rate_init_vested > 0 {
        let scaled_init: u64 = match checked_mul_u64(vest_amount, pool.vest_rate_init_vested) {
            Ok(v) => v,
            Err(e) => {
                return Err(e);
            },
        };
        match checked_div_u64(scaled_init, 100) {
            Ok(v) => v,
            Err(e) => {
                return Err(e);
            },
        }
    } else {
        0
    };
    pool.total_shares = new_shares;
    schedule.authority = participant;
    schedule.pool = pool_id;
    schedule.start_time = pool.claim_time;
    schedule.amount = vest_amount;
    schedule.amount_init_vested = amount_init_vested;
    schedule.amount_claimed = 0;
    schedule.bump = bump;
    Ok(())
}

/// Accepting a bid re-establishes the intake-cap invariant on the updated
/// pool, whatever the pool's prior state. Together with `create` starting
/// at zero shares, the invariant therefore holds after every sequence of
/// accepted bids on a pool.
pub proof fn lemma_accepted_bid_caps_intake(p: Pool, s: VestingSchedule)
    requires
        bid_accepts(p, s),
    ensures
        cap_invariant(Pool { total_shares: (p.total_shares + 1) as u64, ..p }),
{
}

/// A nonzero-amount schedule is never accepted again: together with `bid`
/// succeeding exactly on `bid_accepts`, at most one nonzero-amount
/// schedule can ever come out of the record a (pool, participant) pair is
/// keyed to.
pub proof fn lemma_nonzero_schedule_blocks_bid(p: Pool, s: VestingSchedule)
    requires
        s.amount > 0,
    ensures
        !bid_accepts(p, s),
{
}

/// The amount a successful claim transfers: everything currently claimable
/// when `requested` is zero, exactly `requested` base units otherwise.
pub open spec fn claim_final_amount(p: Pool, s: VestingSchedule, now: u64, requested: u64) -> int {
    if requested == 0 {
        claimable_at(p, s, now)
    } else {
        requested as int
    }
}

/// Processes a claim against `schedule` at `current_time`, staging the
/// mutation into the record it was handed.
///
/// A zero `amount` means "claim everything currently claimable"; a nonzero
/// `amount` means "claim exactly this many base units". On success the
/// returned value is what the host must transfer from the pool's base
/// custody, and `amount_claimed` has grown by exactly that value; the
/// cumulative total stays within the entitlement whenever the schedule has
/// no up-front slice. On any rejection the schedule is unchanged, so the
/// host can treat the operation plus the transfer as one atomic unit,
/// discarding the staged record if the transfer fails.
pub fn claim(pool: &Pool, schedule: &mut VestingSchedule, current_time: u64, amount: u64) -> (r:
    Result<u64, ErrorCode>)
    ensures
        r is Ok <==> (!claimable_fails(*pool, *old(schedule), current_time) && claimable_at(
            *pool,
            *old(schedule),
            current_time,
        ) >= amount),
        r is Err ==> *final(schedule) == *old(schedule),
        claimable_fails(*pool, *old(schedule), current_time) ==> r == Err::<u64, ErrorCode>(
            ErrorCode::ArithmeticOverflow,
        ),
        !claimable_fails(*pool, *old(schedule), current_time) && claimable_at(
            *pool,
            *old(schedule),
            current_time,
        ) < amount ==> r == Err::<u64, ErrorCode>(ErrorCode::NotEnoughVestedToken),
        r is Ok ==> r == Ok::<u64, ErrorCode>(
            claim_final_amount(*pool, *old(schedule), current_time, amount) as u64,
        ),
        r is Ok ==> *final(schedule) == (VestingSchedule {
            amount_claimed: (old(schedule).amount_claimed + claim_final_amount(
                *pool,
                *old(schedule),
                current_time,
                amount,
            )) as u64,
            ..*old(schedule)
        }),
        r is Ok && old(schedule).amount_init_vested == 0 && schedule_within_entitlement(
            *old(schedule),
        ) ==> schedule_within_entitlement(*final(schedule)),
{
    let claimable: u64 = match compute_claimable_amount(pool, schedule, current_time) {
        Ok(v) => v,
        Err(e) => {
            return Err(e);
        },
    };
    if claimable < amount {
        return Err(ErrorCode::NotEnoughVestedToken);
    }
    let final_amount: u64 = if amount == 0 {
        claimable
    } else {
        amount
    };
    proof {
        if schedule.amount_init_vested == 0 && schedule.amount_claimed <= schedule.amount {
            lemma_claimable_within_remainder(*pool, *schedule, current_time);
        }
    }
    let new_claimed: u64 = match checked_add_u64(schedule.amount_claimed, final_amount) {
        Ok(v) => v,
        Err(e) => {
            return Err(e);
        },
    };
    schedule.amount_claimed = new_claimed;
    Ok(final_amount)
}

} // verus!
