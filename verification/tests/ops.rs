use ido_vesting::arith::{checked_add_u64, checked_div_u64, checked_mul_u64, checked_sub_u64};
use ido_vesting::errors::ErrorCode;
use ido_vesting::model::{Pool, VestingSchedule};
use ido_vesting::ops::{bid, claim, create};

const POOL_ID: u64 = 7;
const ALICE: u64 = 9;
const BOB: u64 = 11;

fn fresh_schedule() -> VestingSchedule {
    VestingSchedule {
        authority: 0,
        pool: 0,
        start_time: 0,
        amount: 0,
        amount_init_vested: 0,
        amount_claimed: 0,
        bump: 0,
    }
}

fn sample_pool(pool_quote_cap: u64, vest_rate_init_vested: u64) -> Pool {
    create(
        1,
        2,
        3,
        4,
        100,
        200,
        10000,
        pool_quote_cap,
        50,
        1000,
        0,
        1000,
        100,
        vest_rate_init_vested,
        7,
    )
}

#[test]
fn create_copies_fields_and_starts_with_no_shares() {
    let pool = sample_pool(1_000_000, 20);
    assert_eq!(pool.base_mint, 1);
    assert_eq!(pool.base_vault, 2);
    assert_eq!(pool.quote_mint, 3);
    assert_eq!(pool.quote_vault, 4);
    assert_eq!(pool.start_time, 100);
    assert_eq!(pool.end_time, 200);
    assert_eq!(pool.claim_time, 10000);
    assert_eq!(pool.pool_quote_cap, 1_000_000);
    assert_eq!(pool.pool_exchange_rate, 50);
    assert_eq!(pool.pool_every_quote_amount, 1000);
    assert_eq!(pool.vest_cliff, 0);
    assert_eq!(pool.vest_duration, 1000);
    assert_eq!(pool.vest_slice_period_seconds, 100);
    assert_eq!(pool.vest_rate_init_vested, 20);
    assert_eq!(pool.total_shares, 0);
    assert_eq!(pool.bump, 7);
}

#[test]
fn bid_produces_the_scenario_entitlement() {
    let mut pool = sample_pool(1_000_000, 0);
    let mut schedule = fresh_schedule();
    assert_eq!(bid(&mut pool, POOL_ID, &mut schedule, ALICE, 3), Ok(()));
    assert_eq!(pool.total_shares, 1);
    assert_eq!(schedule.authority, ALICE);
    assert_eq!(schedule.pool, POOL_ID);
    assert_eq!(schedule.start_time, 10000);
    assert_eq!(schedule.amount, 500);
    assert_eq!(schedule.amount_init_vested, 0);
    assert_eq!(schedule.amount_claimed, 0);
    assert_eq!(schedule.bump, 3);
}

#[test]
fn bid_computes_the_init_vested_slice() {
    let mut pool = sample_pool(1_000_000, 20);
    let mut schedule = fresh_schedule();
    assert_eq!(bid(&mut pool, POOL_ID, &mut schedule, ALICE, 3), Ok(()));
    assert_eq!(schedule.amount, 500);
    // floor(500 * 20 / 100) = 100
    assert_eq!(schedule.amount_init_vested, 100);
}

#[test]
fn second_bid_by_the_same_participant_is_rejected() {
    let mut pool = sample_pool(1_000_000, 0);
    let mut schedule = fresh_schedule();
    assert_eq!(bid(&mut pool, POOL_ID, &mut schedule, ALICE, 3), Ok(()));
    let before_pool = pool;
    let before_schedule = schedule;
    assert_eq!(
        bid(&mut pool, POOL_ID, &mut schedule, ALICE, 3),
        Err(ErrorCode::AlreadyBid)
    );
    assert_eq!(pool, before_pool);
    assert_eq!(schedule, before_schedule);
}

#[test]
fn bid_over_the_cap_is_rejected_and_leaves_no_schedule() {
    // the cap admits exactly one 1000-unit deposit
    let mut pool = sample_pool(1000, 0);
    let mut first = fresh_schedule();
    assert_eq!(bid(&mut pool, POOL_ID, &mut first, ALICE, 3), Ok(()));
    let before_pool = pool;
    let mut second = fresh_schedule();
    assert_eq!(
        bid(&mut pool, POOL_ID, &mut second, BOB, 4),
        Err(ErrorCode::CapFull)
    );
    assert_eq!(pool, before_pool);
    assert_eq!(second, fresh_schedule());
}

#[test]
fn bid_with_overflowing_entitlement_is_an_arithmetic_error() {
    let mut pool = sample_pool(u64::MAX, 0);
    pool.pool_every_quote_amount = u64::MAX;
    pool.pool_exchange_rate = 2;
    let mut schedule = fresh_schedule();
    assert_eq!(
        bid(&mut pool, POOL_ID, &mut schedule, ALICE, 3),
        Err(ErrorCode::ArithmeticOverflow)
    );
    assert_eq!(schedule, fresh_schedule());
    assert_eq!(pool.total_shares, 0);
}

#[test]
fn bid_with_exhausted_share_counter_is_an_arithmetic_error() {
    let mut pool = sample_pool(u64::MAX, 0);
    pool.total_shares = u64::MAX;
    let mut schedule = fresh_schedule();
    assert_eq!(
        bid(&mut pool, POOL_ID, &mut schedule, ALICE, 3),
        Err(ErrorCode::ArithmeticOverflow)
    );
    assert_eq!(pool.total_shares, u64::MAX);
}

#[test]
fn bids_fill_the_pool_up_to_the_cap() {
    // the cap admits exactly three 1000-unit deposits
    let mut pool = sample_pool(3500, 0);
    for participant in 0..3u64 {
        let mut schedule = fresh_schedule();
        assert_eq!(bid(&mut pool, POOL_ID, &mut schedule, participant, 0), Ok(()));
        assert!(pool.total_shares * pool.pool_every_quote_amount <= pool.pool_quote_cap);
    }
    let mut fourth = fresh_schedule();
    assert_eq!(
        bid(&mut pool, POOL_ID, &mut fourth, BOB, 0),
        Err(ErrorCode::CapFull)
    );
    assert_eq!(pool.total_shares, 3);
}

#[test]
fn claim_everything_then_again_at_the_same_instant() {
    let pool = sample_pool(1_000_000, 0);
    let mut schedule = VestingSchedule {
        authority: ALICE,
        pool: POOL_ID,
        start_time: 10000,
        amount: 500,
        amount_init_vested: 0,
        amount_claimed: 0,
        bump: 0,
    };
    // claimable is 100 at 250 s in; a zero request takes all of it
    assert_eq!(claim(&pool, &mut schedule, 10250, 0), Ok(100));
    assert_eq!(schedule.amount_claimed, 100);
    // an immediate second zero-request claim transfers nothing
    let before = schedule;
    assert_eq!(claim(&pool, &mut schedule, 10250, 0), Ok(0));
    assert_eq!(schedule, before);
}

#[test]
fn claim_of_an_exact_amount_is_honoured() {
    let pool = sample_pool(1_000_000, 0);
    let mut schedule = VestingSchedule {
        authority: ALICE,
        pool: POOL_ID,
        start_time: 10000,
        amount: 500,
        amount_init_vested: 0,
        amount_claimed: 0,
        bump: 0,
    };
    assert_eq!(claim(&pool, &mut schedule, 10250, 40), Ok(40));
    assert_eq!(schedule.amount_claimed, 40);
    assert_eq!(claim(&pool, &mut schedule, 10250, 60), Ok(60));
    assert_eq!(schedule.amount_claimed, 100);
}

#[test]
fn claim_beyond_the_vested_balance_is_rejected() {
    let pool = sample_pool(1_000_000, 0);
    let mut schedule = VestingSchedule {
        authority: ALICE,
        pool: POOL_ID,
        start_time: 10000,
        amount: 500,
        amount_init_vested: 0,
        amount_claimed: 0,
        bump: 0,
    };
    let before = schedule;
    assert_eq!(
        claim(&pool, &mut schedule, 10250, 101),
        Err(ErrorCode::NotEnoughVestedToken)
    );
    assert_eq!(schedule, before);
    // and before the window opens nothing at all is claimable
    assert_eq!(
        claim(&pool, &mut schedule, 9999, 1),
        Err(ErrorCode::NotEnoughVestedToken)
    );
}

#[test]
fn claims_never_exceed_the_entitlement() {
    let pool = sample_pool(1_000_000, 0);
    let mut schedule = VestingSchedule {
        authority: ALICE,
        pool: POOL_ID,
        start_time: 10000,
        amount: 500,
        amount_init_vested: 0,
        amount_claimed: 0,
        bump: 0,
    };
    let mut t: u64 = 10100;
    while t <= 11100 {
        claim(&pool, &mut schedule, t, 0).unwrap();
        assert!(schedule.amount_claimed <= schedule.amount);
        t += 170;
    }
    assert_eq!(claim(&pool, &mut schedule, 11200, 0), Ok(50));
    assert_eq!(schedule.amount_claimed, 500);
    assert_eq!(claim(&pool, &mut schedule, 11200, 0), Ok(0));
}

#[test]
fn checked_kernel_reports_exact_values_and_failures() {
    assert_eq!(checked_mul_u64(6, 7), Ok(42));
    assert_eq!(checked_mul_u64(u64::MAX, 2), Err(ErrorCode::ArithmeticOverflow));
    assert_eq!(checked_div_u64(41, 7), Ok(5));
    assert_eq!(checked_div_u64(41, 0), Err(ErrorCode::ArithmeticOverflow));
    assert_eq!(checked_add_u64(40, 2), Ok(42));
    assert_eq!(checked_add_u64(u64::MAX, 1), Err(ErrorCode::ArithmeticOverflow));
    assert_eq!(checked_sub_u64(44, 2), Ok(42));
    assert_eq!(checked_sub_u64(2, 3), Err(ErrorCode::ArithmeticOverflow));
}
