use vstd::prelude::*;

use crate::error::StakeError;
use crate::rate::{Duration, Rate};
use crate::state::{
    Pubkey, StakeAccount, StakeStatus, StakingPool, StakingPoolStatus, StakingReceipt,
};

verus! {

/// Records handed to [`create`].
#[derive(Debug, Clone, Copy)]
pub struct Create {
    pub payer: Pubkey,
    /// The market that will own the account.
    pub owner: Pubkey,
    pub stake: StakeAccount,
}

/// Records handed to [`add_staking_pool`].
#[derive(Debug, Clone, Copy)]
pub struct AddStakingPool {
    pub payer: Pubkey,
    pub owner: Pubkey,
    pub stake: StakeAccount,
    /// The pool record to set up.
    pub staking_pool: StakingPool,
    /// The clock's unix timestamp.
    pub now: i64,
}

/// Records handed to [`freeze`].
#[derive(Debug, Clone, Copy)]
pub struct Freeze {
    pub payer: Pubkey,
    pub owner: Pubkey,
    pub stake: StakeAccount,
    pub staking_pool: StakingPool,
}

/// Records handed to [`thaw`].
#[derive(Debug, Clone, Copy)]
pub struct Thaw {
    pub payer: Pubkey,
    pub owner: Pubkey,
    pub stake: StakeAccount,
    pub staking_pool: StakingPool,
}

/// Records handed to [`init_receipt`].
#[derive(Debug, Clone, Copy)]
pub struct InitReceipt {
    /// The depositor who opens the receipt.
    pub payer: Pubkey,
    pub owner: Pubkey,
    pub stake: StakeAccount,
    pub staking_pool: StakingPool,
    /// Address of the pool record.
    pub staking_pool_key: Pubkey,
    /// The receipt record to set up.
    pub staking_receipt: StakingReceipt,
}

/// Records handed to [`stake`].
#[derive(Debug, Clone, Copy)]
pub struct Stake {
    pub payer: Pubkey,
    pub owner: Pubkey,
    pub stake: StakeAccount,
    pub staking_pool: StakingPool,
    pub staking_receipt: StakingReceipt,
    /// The clock's unix timestamp.
    pub now: i64,
}

/// Records handed to [`redeem`].
#[derive(Debug, Clone, Copy)]
pub struct Redeem {
    pub payer: Pubkey,
    pub owner: Pubkey,
    pub stake: StakeAccount,
    pub staking_pool: StakingPool,
    pub staking_receipt: StakingReceipt,
    /// The clock's unix timestamp.
    pub now: i64,
}

/// Records handed to [`confirm_redeem`].
#[derive(Debug, Clone, Copy)]
pub struct ConfirmRedeem {
    pub payer: Pubkey,
    pub owner: Pubkey,
    pub stake: StakeAccount,
    pub staking_pool: StakingPool,
    pub staking_receipt: StakingReceipt,
    /// The clock's unix timestamp.
    pub now: i64,
}

/// Opens the stake account of the market `ctx.owner`.
pub fn create(ctx: &mut Create) -> (r: Result<(), StakeError>)
    ensures
        r == Ok::<(), StakeError>(()),
        *final(ctx) == (Create {
            stake: StakeAccount {
                status: StakeStatus::Available,
                owner: old(ctx).owner,
                stakings: 0,
                amount: 0,
                redeem: 0,
            },
            ..*old(ctx)
        }),
{
    ctx.stake.owner = ctx.owner;
    ctx.stake.status = StakeStatus::Available;
    ctx.stake.stakings = 0;
    ctx.stake.amount = 0;
    ctx.stake.redeem = 0;
    Ok(())
}

/// A deposit of `amount` lifts the pool over its funding target while it is
/// still funding.
pub open spec fn activates(pool: StakingPool, amount: u64) -> bool {
    match pool.funding {
        Some(target) => pool.status == StakingPoolStatus::Funding && pool.amount + amount > target,
        None => false,
    }
}

/// The pool's status after a deposit of `amount`.
pub open spec fn status_after_stake(pool: StakingPool, amount: u64) -> StakingPoolStatus {
    if activates(pool, amount) {
        StakingPoolStatus::Staking
    } else {
        pool.status
    }
}

/// What a deposit of `amount` adds to the stake account: on activation the
/// pool's whole post-deposit total, and, whenever the pool then stakes, the
/// deposit itself (so on activation the deposit is counted twice).
pub open spec fn stake_credit(pool: StakingPool, amount: u64) -> int {
    (if activates(pool, amount) {
        pool.amount + amount
    } else {
        0
    }) + (if status_after_stake(pool, amount) == StakingPoolStatus::Staking {
        amount as int
    } else {
        0
    })
}

/// A deposit of `amount` passes both the staking-period and the admission check.
pub open spec fn stake_admitted(ctx: Stake, amount: u64) -> bool {
    &&& ctx.now <= ctx.staking_pool.stop_at_spec()
    &&& ctx.staking_pool.stakable(ctx.staking_receipt.amount, amount)
}

/// The ledger sums that an admitted deposit of `amount` produces fit in a `u64`.
pub open spec fn stake_fits(ctx: Stake, amount: u64) -> bool {
    &&& ctx.staking_receipt.amount + amount <= u64::MAX
    &&& ctx.staking_pool.amount + amount <= u64::MAX
    &&& ctx.stake.amount + stake_credit(ctx.staking_pool, amount) <= u64::MAX
}

/// Deposits `amount` into the pool on behalf of the receipt's depositor.
///
/// Fails with `NotInStakingRange` after the staking period and with
/// `StakingLimit` when admission control refuses, changing nothing. Otherwise
/// the receipt and the pool grow by `amount`, a funding pool that passes its
/// target starts staking, and the stake account is credited by
/// [`stake_credit`].
pub fn stake(ctx: &mut Stake, amount: u64) -> (r: Result<(), StakeError>)
    requires
        old(ctx).staking_pool.stop_at_fits(),
        stake_admitted(*old(ctx), amount) ==> stake_fits(*old(ctx), amount),
    ensures
        old(ctx).now > old(ctx).staking_pool.stop_at_spec() ==> r == Err::<(), StakeError>(
            StakeError::NotInStakingRange,
        ) && *final(ctx) == *old(ctx),
        old(ctx).now <= old(ctx).staking_pool.stop_at_spec() && !old(ctx).staking_pool.stakable(
            old(ctx).staking_receipt.amount,
            amount,
        ) ==> r == Err::<(), StakeError>(StakeError::StakingLimit) && *final(ctx) == *old(ctx),
        stake_admitted(*old(ctx), amount) ==> r == Ok::<(), StakeError>(()) && *final(ctx) == (
        Stake {
            stake: StakeAccount {
                amount: (old(ctx).stake.amount + stake_credit(old(ctx).staking_pool, amount)) as u64,
                ..old(ctx).stake
            },
            staking_pool: StakingPool {
                amount: (old(ctx).staking_pool.amount + amount) as u64,
                status: status_after_stake(old(ctx).staking_pool, amount),
                ..old(ctx).staking_pool
            },
            staking_receipt: StakingReceipt {
                amount: (old(ctx).staking_receipt.amount + amount) as u64,
                ..old(ctx).staking_receipt
            },
            ..*old(ctx)
        }),
{
    let now = ctx.now;
    if now > ctx.staking_pool.stop_at() {
        return Err(StakeError::NotInStakingRange);
    }
    if !ctx.staking_pool.is_stakable(ctx.staking_receipt.amount, amount) {
        return Err(StakeError::StakingLimit);
    }
    ctx.staking_receipt.amount = ctx.staking_receipt.amount + amount;
    ctx.staking_pool.amount = ctx.staking_pool.amount + amount;
    if let Some(funding) = ctx.staking_pool.funding {
        if ctx.staking_pool.status == StakingPoolStatus::Funding && ctx.staking_pool.amount
            > funding {
            ctx.staking_pool.status = StakingPoolStatus::Staking;
            ctx.stake.amount = ctx.stake.amount + ctx.staking_pool.amount;
        }
    }
    if ctx.staking_pool.status == StakingPoolStatus::Staking {
        ctx.stake.amount = ctx.stake.amount + amount;
    }
    Ok(())
}

/// Opens pool number `stakings` of the stake account.
///
/// Fails with `InvalidRate` when the profit rate or the redemption rate is not
/// a fraction in (0, 1], changing nothing. Otherwise the pool record is set up
/// as [`StakingPool::fresh`] describes (the redemption rate supplied is only
/// validated; the pool redeems at the full rate) and the account's pool count
/// grows by one.
#[allow(clippy::too_many_arguments)]
pub fn add_staking_pool(
    ctx: &mut AddStakingPool,
    duration: Duration,
    redeem_duration: Duration,
    profit_rate: Rate,
    stake_rate: Rate,
    redeem_rate: Rate,
    start: i64,
    funding: Option<u64>,
) -> (r: Result<(), StakeError>)
    requires
        profit_rate.valid() && redeem_rate.valid() ==> old(ctx).stake.stakings < u32::MAX,
    ensures
        !(profit_rate.valid() && redeem_rate.valid()) ==> r == Err::<(), StakeError>(
            StakeError::InvalidRate,
        ) && *final(ctx) == *old(ctx),
        profit_rate.valid() && redeem_rate.valid() ==> r == Ok::<(), StakeError>(()) && *final(ctx)
            == (AddStakingPool {
            stake: StakeAccount { stakings: (old(ctx).stake.stakings + 1) as u32, ..old(ctx).stake },
            staking_pool: StakingPool::fresh(
                old(ctx).stake.stakings,
                funding,
                duration,
                redeem_duration,
                profit_rate,
                stake_rate,
                start,
                old(ctx).now,
            ),
            ..*old(ctx)
        }),
        r is Ok ==> (funding is None ==> final(ctx).staking_pool.status
            == StakingPoolStatus::Staking) && (funding is Some ==> final(ctx).staking_pool.status
            == StakingPoolStatus::Funding),
{
    if !profit_rate.is_valid() || !redeem_rate.is_valid() {
        return Err(StakeError::InvalidRate);
    }
    let id = ctx.stake.stakings;
    let now = ctx.now;
    ctx.staking_pool.initialized(
        id,
        funding,
        duration,
        redeem_duration,
        profit_rate,
        stake_rate,
        redeem_rate,
        start,
        now,
    );
    ctx.stake.stakings = ctx.stake.stakings + 1;
    Ok(())
}

/// Freezes the pool; nothing else changes.
pub fn freeze(ctx: &mut Freeze) -> (r: Result<(), StakeError>)
    ensures
        r == Ok::<(), StakeError>(()),
        *final(ctx) == (Freeze {
            staking_pool: StakingPool { status: StakingPoolStatus::Frozen, ..old(ctx).staking_pool },
            ..*old(ctx)
        }),
{
    ctx.staking_pool.status = StakingPoolStatus::Frozen;
    Ok(())
}

/// Thaws the pool back to staking; nothing else changes.
pub fn thaw(ctx: &mut Thaw) -> (r: Result<(), StakeError>)
    ensures
        r == Ok::<(), StakeError>(()),
        *final(ctx) == (Thaw {
            staking_pool: StakingPool {
                status: StakingPoolStatus::Staking,
                ..old(ctx).staking_pool
            },
            ..*old(ctx)
        }),
{
    ctx.staking_pool.status = StakingPoolStatus::Staking;
    Ok(())
}

/// Opens the payer's receipt for the pool: nothing committed, no redemption
/// scheduled.
pub fn init_receipt(ctx: &mut InitReceipt) -> (r: Result<(), StakeError>)
    ensures
        r == Ok::<(), StakeError>(()),
        *final(ctx) == (InitReceipt {
            staking_receipt: StakingReceipt {
                owner: old(ctx).payer,
                staking_pool: old(ctx).staking_pool_key,
                amount: 0,
                redeemable_at: None,
                redeemable: None,
            },
            ..*old(ctx)
        }),
{
    ctx.staking_receipt.owner = ctx.payer;
    ctx.staking_receipt.staking_pool = ctx.staking_pool_key;
    ctx.staking_receipt.amount = 0;
    ctx.staking_receipt.redeemable_at = None;
    ctx.staking_receipt.redeemable = None;
    Ok(())
}

/// The pool's status after a redemption request at `now`: a staking pool whose
/// period has ended moves to `Redeeming`.
pub open spec fn status_after_redeem(pool: StakingPool, now: i64) -> StakingPoolStatus {
    if pool.status == StakingPoolStatus::Staking && now >= pool.stop_at_spec() {
        StakingPoolStatus::Redeeming
    } else {
        pool.status
    }
}

/// When a redemption requested at `now` may be confirmed: after the cooldown
/// while the pool still stakes, at once when it is redeeming.
pub open spec fn redeem_time(pool: StakingPool, now: i64) -> int {
    if status_after_redeem(pool, now) == StakingPoolStatus::Staking {
        now + pool.redeem_duration.seconds()
    } else {
        now as int
    }
}

/// Records handed to [`redeem`] on which the request can be carried out: the
/// pool stakes or redeems, and every sum and difference fits.
pub open spec fn redeem_allowed(ctx: Redeem) -> bool {
    let ra = ctx.staking_receipt.amount;
    &&& ctx.staking_pool.stop_at_fits()
    &&& ctx.staking_pool.status == StakingPoolStatus::Staking || ctx.staking_pool.status
        == StakingPoolStatus::Redeeming
    &&& ctx.stake.amount >= ra
    &&& ctx.stake.redeem + ra <= u64::MAX
    &&& ctx.staking_pool.amount >= ra
    &&& redeem_time(ctx.staking_pool, ctx.now) <= i64::MAX
}

/// Requests the redemption of everything the receipt holds.
///
/// The receipt's amount moves from the account's at-risk `amount` to its
/// pending `redeem` and leaves the pool; a staking pool whose period has ended
/// starts redeeming; the receipt becomes redeemable at [`redeem_time`].
pub fn redeem(ctx: &mut Redeem) -> (r: Result<(), StakeError>)
    requires
        redeem_allowed(*old(ctx)),
    ensures
        r == Ok::<(), StakeError>(()),
        *final(ctx) == (Redeem {
            stake: StakeAccount {
                amount: (old(ctx).stake.amount - old(ctx).staking_receipt.amount) as u64,
                redeem: (old(ctx).stake.redeem + old(ctx).staking_receipt.amount) as u64,
                ..old(ctx).stake
            },
            staking_pool: StakingPool {
                amount: (old(ctx).staking_pool.amount - old(ctx).staking_receipt.amount) as u64,
                status: status_after_redeem(old(ctx).staking_pool, old(ctx).now),
                ..old(ctx).staking_pool
            },
            staking_receipt: StakingReceipt {
                redeemable_at: Some(redeem_time(old(ctx).staking_pool, old(ctx).now) as i64),
                ..old(ctx).staking_receipt
            },
            ..*old(ctx)
        }),
        final(ctx).stake.amount + final(ctx).stake.redeem == old(ctx).stake.amount + old(
            ctx,
        ).stake.redeem,
{
    let now = ctx.now;
    let ra = ctx.staking_receipt.amount;
    ctx.stake.amount = ctx.stake.amount - ra;
    ctx.stake.redeem = ctx.stake.redeem + ra;
    ctx.staking_pool.amount = ctx.staking_pool.amount - ra;
    if ctx.staking_pool.status == StakingPoolStatus::Staking && now >= ctx.staking_pool.stop_at() {
        ctx.staking_pool.status = StakingPoolStatus::Redeeming;
    }
    match ctx.staking_pool.status {
        StakingPoolStatus::Staking => {
            ctx.staking_receipt.redeemable_at = Some(
                now + ctx.staking_pool.redeem_duration.into_i64(),
            );
        },
        StakingPoolStatus::Redeeming => {
            ctx.staking_receipt.redeemable_at = Some(now);
        },
        _ => {
            assert(false);
        },
    }
    Ok(())
}

/// Confirms a scheduled redemption.
///
/// Fails with `RedeemNotCoolDown`, changing nothing, unless a redemption was
/// scheduled and its time has come. Otherwise the account's pending `redeem`
/// falls by exactly the receipt's amount and the receipt is emptied, ready to
/// be closed.
pub fn confirm_redeem(ctx: &mut ConfirmRedeem) -> (r: Result<(), StakeError>)
    requires
        old(ctx).staking_receipt.redeemable_spec(old(ctx).now) ==> old(ctx).stake.redeem >= old(
            ctx,
        ).staking_receipt.amount,
    ensures
        !old(ctx).staking_receipt.redeemable_spec(old(ctx).now) ==> r == Err::<(), StakeError>(
            StakeError::RedeemNotCoolDown,
        ) && *final(ctx) == *old(ctx),
        old(ctx).staking_receipt.redeemable_spec(old(ctx).now) ==> r == Ok::<(), StakeError>(())
            && *final(ctx) == (ConfirmRedeem {
            stake: StakeAccount {
                redeem: (old(ctx).stake.redeem - old(ctx).staking_receipt.amount) as u64,
                ..old(ctx).stake
            },
            staking_receipt: StakingReceipt { amount: 0, ..old(ctx).staking_receipt },
            ..*old(ctx)
        }),
{
    if !ctx.staking_receipt.is_redeemable(ctx.now) {
        return Err(StakeError::RedeemNotCoolDown);
    }
    ctx.stake.redeem = ctx.stake.redeem - ctx.staking_receipt.amount;
    ctx.staking_receipt.amount = 0;
    Ok(())
}

/// Tells whether [`stake`] may be called on `ctx` and `amount`: the end of the
/// staking period is representable and, when the deposit would be admitted,
/// every ledger sum fits.
pub fn stake_in_bounds(ctx: &Stake, amount: u64) -> (r: bool)
    ensures
        r == (ctx.staking_pool.stop_at_fits() && (stake_admitted(*ctx, amount) ==> stake_fits(
            *ctx,
            amount,
        ))),
{
    let pool = &ctx.staking_pool;
    let stop = match pool.start.checked_add(pool.duration.into_i64()) {
        Some(stop) => stop,
        None => return false,
    };
    if ctx.now > stop || !pool.is_stakable(ctx.staking_receipt.amount, amount) {
        return true;
    }
    if ctx.staking_receipt.amount.checked_add(amount).is_none() {
        return false;
    }
    let pool_sum = match pool.amount.checked_add(amount) {
        Some(sum) => sum,
        None => return false,
    };
    let activates = match pool.funding {
        Some(target) => pool.status == StakingPoolStatus::Funding && pool_sum > target,
        None => false,
    };
    let release: u64 = if activates {
        pool_sum
    } else {
        0
    };
    let own: u64 = if activates || pool.status == StakingPoolStatus::Staking {
        amount
    } else {
        0
    };
    match ctx.stake.amount.checked_add(release) {
        Some(credited) => credited.checked_add(own).is_some(),
        None => false,
    }
}

/// Tells whether [`redeem`] may be called on `ctx`.
pub fn redeem_in_bounds(ctx: &Redeem) -> (r: bool)
    ensures
        r == redeem_allowed(*ctx),
{
    let pool = &ctx.staking_pool;
    let ra = ctx.staking_receipt.amount;
    let stop = match pool.start.checked_add(pool.duration.into_i64()) {
        Some(stop) => stop,
        None => return false,
    };
    if !(pool.status == StakingPoolStatus::Staking || pool.status
        == StakingPoolStatus::Redeeming) {
        return false;
    }
    if ctx.stake.amount < ra || pool.amount < ra || ctx.stake.redeem.checked_add(ra).is_none() {
        return false;
    }
    if pool.status == StakingPoolStatus::Staking && ctx.now < stop {
        ctx.now.checked_add(pool.redeem_duration.into_i64()).is_some()
    } else {
        true
    }
}

/// Tells whether [`confirm_redeem`] may be called on `ctx`: a confirmation
/// that is due does not drive the account's pending `redeem` below zero.
pub fn confirm_in_bounds(ctx: &ConfirmRedeem) -> (r: bool)
    ensures
        r == (ctx.staking_receipt.redeemable_spec(ctx.now) ==> ctx.stake.redeem
            >= ctx.staking_receipt.amount),
{
    !ctx.staking_receipt.is_redeemable(ctx.now) || ctx.stake.redeem >= ctx.staking_receipt.amount
}

/// A deposit that lifts a funding pool from at most its target to above it
/// starts the pool staking and credits the stake account with the pool's whole
/// post-deposit total plus the deposit once more.
pub proof fn lemma_funding_release(pool: StakingPool, amount: u64)
    requires
        pool.status == StakingPoolStatus::Funding,
        pool.funding is Some,
        pool.amount <= pool.funding->0,
        pool.amount + amount > pool.funding->0,
    ensures
        status_after_stake(pool, amount) == StakingPoolStatus::Staking,
        stake_credit(pool, amount) == (pool.amount + amount) + amount,
{
}

/// A deposit into a funding pool that stays at or below its target credits
/// the stake account with nothing and leaves the pool funding.
pub proof fn lemma_funding_hold(pool: StakingPool, amount: u64)
    requires
        pool.status == StakingPoolStatus::Funding,
        pool.funding is Some,
        pool.amount + amount <= pool.funding->0,
    ensures
        status_after_stake(pool, amount) == StakingPoolStatus::Funding,
        stake_credit(pool, amount) == 0,
{
}

/// A redemption requested while a staking pool's period is still running
/// becomes confirmable after the pool's cooldown; one requested after the
/// period ended, or on a redeeming pool, is confirmable at once.
pub proof fn lemma_redeem_schedule(pool: StakingPool, now: i64)
    requires
        pool.status == StakingPoolStatus::Staking || pool.status == StakingPoolStatus::Redeeming,
    ensures
        pool.status == StakingPoolStatus::Staking && now < pool.stop_at_spec() ==> redeem_time(
            pool,
            now,
        ) == now + pool.redeem_duration.seconds(),
        now >= pool.stop_at_spec() || pool.status == StakingPoolStatus::Redeeming ==> redeem_time(
            pool,
            now,
        ) == now && status_after_redeem(pool, now) == StakingPoolStatus::Redeeming,
{
}

} // verus!
