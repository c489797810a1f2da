//! A staking ledger: stake accounts, time-boxed staking pools and per-depositor
//! receipts, with deposit admission control, funding-threshold activation and
//! cooldown-gated redemption.

pub mod error;
pub mod instructions;
pub mod rate;
pub mod state;

pub use error::StakeError;
pub use rate::{Duration, Rate};
pub use state::{
    Pubkey, StakeAccount, StakeStatus, StakingPool, StakingPoolStatus, StakingReceipt,
};
pub use instructions::{
    add_staking_pool, confirm_in_bounds, confirm_redeem, create, freeze, init_receipt, redeem,
    redeem_in_bounds, stake, stake_in_bounds, thaw,
    AddStakingPool, ConfirmRedeem, Create, Freeze, InitReceipt, Redeem, Stake, Thaw,
};
