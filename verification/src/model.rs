use vstd::prelude::*;

verus! {

/// One sale pool: asset references and timing and economics fixed at
/// creation, plus the `total_shares` counter of accepted bids.
///
/// The four asset references are opaque identifiers assigned by the host's
/// entity store; the core only carries them. All timestamps are absolute
/// and compared on the host clock's scale.
#[derive(Clone, Copy, Debug, PartialEq, Eq, Structural)]
pub struct Pool {
    /// Reference to the base asset handed out as bids vest.
    pub base_mint: u64,
    /// Reference to the custody account holding the pool's base tokens.
    pub base_vault: u64,
    /// Reference to the quote asset participants deposit.
    pub quote_mint: u64,
    /// Reference to the custody account collecting quote deposits.
    pub quote_vault: u64,
    /// When the sale opens.
    pub start_time: u64,
    /// When the sale closes.
    pub end_time: u64,
    /// When vesting schedules begin counting; copied into each schedule's
    /// `start_time` at bid time.
    pub claim_time: u64,
    /// Maximum total quote deposits the pool accepts.
    pub pool_quote_cap: u64,
    /// Percentage: base units minted per 100 quote units deposited.
    pub pool_exchange_rate: u64,
    /// Fixed quote deposit size of every bid.
    pub pool_every_quote_amount: u64,
    /// Reserved; not consulted by the claimable-amount computation.
    pub vest_cliff: u64,
    /// Seconds from a schedule's start to full vesting.
    pub vest_duration: u64,
    /// Granularity at which vesting accrues: only whole slice periods vest.
    pub vest_slice_period_seconds: u64,
    /// Percentage of an allocation released immediately at the claim-window
    /// start.
    pub vest_rate_init_vested: u64,
    /// Number of accepted bids; starts at 0, increments by exactly 1 per
    /// successful bid, never decrements.
    pub total_shares: u64,
    /// Custody-binding parameter used only by the host's storage layer.
    pub bump: u8,
}

/// The aggregate intake cap: accepted bids times the fixed deposit size
/// never exceed the pool's quote cap.
pub open spec fn cap_invariant(p: Pool) -> bool {
    p.total_shares * p.pool_every_quote_amount <= p.pool_quote_cap
}

/// One participant's entitlement in one pool: the total it will ever
/// receive, the slice vested up front, and the cumulative withdrawals.
#[derive(Clone, Copy, Debug, PartialEq, Eq, Structural)]
pub struct VestingSchedule {
    /// The owning participant's identity, as assigned by the host.
    pub authority: u64,
    /// The owning pool's identity, as assigned by the host.
    pub pool: u64,
    /// When this schedule starts vesting; copied from the pool's
    /// `claim_time` at bid time.
    pub start_time: u64,
    /// Total base tokens this participant will ever be entitled to;
    /// computed once at bid time and immutable thereafter.
    pub amount: u64,
    /// Portion released immediately at `start_time`.
    pub amount_init_vested: u64,
    /// Cumulative base tokens already withdrawn; monotonically
    /// non-decreasing.
    pub amount_claimed: u64,
    /// Custody-binding parameter used only by the host's storage layer.
    pub bump: u8,
}

/// A schedule whose cumulative withdrawals stay within its entitlement.
pub open spec fn schedule_within_entitlement(s: VestingSchedule) -> bool {
    s.amount_claimed <= s.amount
}

} // verus!
