use vstd::prelude::*;

use crate::rate::{Duration, Rate};

verus! {

/// A 32-byte account identity.
#[derive(Debug, Clone, Copy, PartialEq, Eq)]
pub struct Pubkey {
    pub bytes: [u8; 32],
}

/// Lifecycle of a stake account.
#[derive(Debug, Clone, Copy, PartialEq, Eq, Structural)]
pub enum StakeStatus {
    Uninitialized,
    Available,
}

/// Lifecycle of a staking pool: `Funding -> Staking -> Redeeming`, with
/// `Staking <-> Frozen` as a reversible side branch.
#[derive(Debug, Clone, Copy, PartialEq, Eq, Structural)]
pub enum StakingPoolStatus {
    Funding,
    Staking,
    Redeeming,
    Frozen,
}

/// The aggregate ledger of one market.
#[derive(Debug, Clone, Copy)]
pub struct StakeAccount {
    pub status: StakeStatus,
    /// The market that owns the account.
    pub owner: Pubkey,
    /// How many pools were ever opened; the next pool's id.
    pub stakings: u32,
    /// Funds currently at risk across the account's active pools.
    pub amount: u64,
    /// Funds that left `amount` and wait for confirmation.
    pub redeem: u64,
}

/// One funding and staking round of a stake account.
#[derive(Debug, Clone, Copy)]
pub struct StakingPool {
    pub status: StakingPoolStatus,
    pub id: u32,
    /// Total funds deposited by all depositors.
    pub amount: u64,
    /// Target amount that must be exceeded before the pool starts staking.
    pub funding: Option<u64>,
    pub created_at: i64,
    pub start: i64,
    pub duration: Duration,
    pub redeem_duration: Duration,
    pub profit_rate: Rate,
    pub stake_rate: Rate,
    pub redeem_rate: Rate,
}

/// The contribution of one depositor to one pool.
#[derive(Debug, Clone, Copy)]
pub struct StakingReceipt {
    pub owner: Pubkey,
    /// Address of the pool the receipt belongs to.
    pub staking_pool: Pubkey,
    pub amount: u64,
    /// When the redemption may be confirmed; absent until one is requested.
    pub redeemable_at: Option<i64>,
    /// Never written by the operations; always absent.
    pub redeemable: Option<u64>,
}

/// Numerator and denominator of the full redemption rate every pool gets.
pub const FULL_RATE: u32 = 10000;

/// Saturating sum: the largest `u64` when the sum does not fit.
pub open spec fn add_or_max(a: int, b: int) -> int {
    if a + b <= u64::MAX { a + b } else { u64::MAX as int }
}

/// Saturating product: the largest `u64` when the product does not fit.
pub open spec fn mul_or_max(a: int, b: int) -> int {
    if a * b <= u64::MAX { a * b } else { u64::MAX as int }
}

/// A sum that falls to zero when it does not fit in a `u64`.
pub open spec fn add_or_zero(a: int, b: int) -> int {
    if a + b <= u64::MAX { a + b } else { 0 }
}

/// A product that falls to zero when it does not fit in a `u64`.
pub open spec fn mul_or_zero(a: int, b: int) -> int {
    if a * b <= u64::MAX { a * b } else { 0 }
}

impl StakingPool {
    /// A pool just opened: `Funding` when it has a funding target, else
    /// `Staking`; nothing deposited yet; redeeming at the full rate.
    pub open spec fn fresh(
        id: u32,
        funding: Option<u64>,
        duration: Duration,
        redeem_duration: Duration,
        profit_rate: Rate,
        stake_rate: Rate,
        start: i64,
        now: i64,
    ) -> StakingPool {
        StakingPool {
            status: if funding is Some {
                StakingPoolStatus::Funding
            } else {
                StakingPoolStatus::Staking
            },
            id,
            amount: 0,
            funding,
            created_at: now,
            start,
            duration,
            redeem_duration,
            profit_rate,
            stake_rate,
            redeem_rate: Rate { numerator: FULL_RATE, denominator: FULL_RATE },
        }
    }

    /// End of the staking period.
    pub open spec fn stop_at_spec(self) -> int {
        self.start + self.duration.seconds()
    }

    /// The end of the staking period is a representable timestamp.
    pub open spec fn stop_at_fits(self) -> bool {
        self.stop_at_spec() <= i64::MAX
    }

    /// The depositor's side of the admission check, saturating upwards.
    pub open spec fn share_side(self, origin: u64, stake_in: u64) -> int {
        mul_or_max(add_or_max(stake_in as int, origin as int), self.stake_rate.denominator as int)
    }

    /// The pool's side of the admission check, saturating to zero.
    pub open spec fn pool_side(self, stake_in: u64) -> int {
        mul_or_zero(add_or_zero(self.amount as int, stake_in as int), self.stake_rate.numerator as int)
    }

    /// A deposit of `stake_in` by a depositor who holds `origin` is admitted.
    pub open spec fn stakable(self, origin: u64, stake_in: u64) -> bool {
        self.share_side(origin, stake_in) <= self.pool_side(stake_in)
    }

    /// Sets up a fresh pool. The redemption rate supplied is ignored: every
    /// pool redeems at the full rate.
    #[allow(clippy::too_many_arguments)]
    pub fn initialized(
        &mut self,
        id: u32,
        funding: Option<u64>,
        duration: Duration,
        redeem_duration: Duration,
        profit_rate: Rate,
        stake_rate: Rate,
        _redeem_rate: Rate,
        start: i64,
        now: i64,
    )
        ensures
            *final(self) == StakingPool::fresh(
                id,
                funding,
                duration,
                redeem_duration,
                profit_rate,
                stake_rate,
                start,
                now,
            ),
    {
        self.id = id;
        self.amount = 0;
        self.funding = funding;
        self.status = if funding.is_some() {
            StakingPoolStatus::Funding
        } else {
            StakingPoolStatus::Staking
        };
        self.duration = duration;
        self.redeem_duration = redeem_duration;
        self.profit_rate = profit_rate;
        self.stake_rate = stake_rate;
        self.redeem_rate = Rate { numerator: FULL_RATE, denominator: FULL_RATE };
        self.start = start;
        self.created_at = now;
    }

    /// Returns the end of the staking period: `start` plus the pool's duration.
    pub fn stop_at(&self) -> (r: i64)
        requires
            self.stop_at_fits(),
        ensures
            r == self.stop_at_spec(),
    {
        self.start + self.duration.into_i64()
    }

    /// Admission control: a depositor holding `origin` may add `stake_in` only
    /// if `(stake_in + origin) * den <= (amount + stake_in) * num` for the
    /// pool's stake rate, where an overflow on the left saturates to the
    /// largest `u64` and one on the right falls to zero, both towards refusal.
    pub fn is_stakable(&self, origin: u64, stake_in: u64) -> (r: bool)
        ensures
            r == self.stakable(origin, stake_in),
            stake_in as int + origin as int <= u64::MAX
                && (stake_in as int + origin as int) * self.stake_rate.denominator <= u64::MAX
                && self.amount as int + stake_in as int <= u64::MAX
                && (self.amount as int + stake_in as int) * self.stake_rate.numerator <= u64::MAX
                ==> (r <==> (stake_in as int + origin as int) * self.stake_rate.denominator
                    <= (self.amount as int + stake_in as int) * self.stake_rate.numerator),
    {
        let left = stake_in.checked_add(origin).unwrap_or(u64::MAX).checked_mul(
            self.stake_rate.denominator as u64,
        ).unwrap_or(u64::MAX);
        let right = self.amount.checked_add(stake_in).unwrap_or(0).checked_mul(
            self.stake_rate.numerator as u64,
        ).unwrap_or(0);
        left <= right
    }
}

impl StakingReceipt {
    /// The redemption was scheduled and its time has come at `now`.
    pub open spec fn redeemable_spec(self, now: i64) -> bool {
        match self.redeemable_at {
            Some(time) => now >= time,
            None => false,
        }
    }

    /// Tells whether a redemption was scheduled and may be confirmed at `now`.
    pub fn is_redeemable(&self, now: i64) -> (r: bool)
        ensures
            r == self.redeemable_spec(now),
    {
        match self.redeemable_at {
            Some(time) => now >= time,
            None => false,
        }
    }
}

} // verus!
