//! A bonding-curve token market with exact-integer arithmetic: buys and sells
//! move a linear price, every buy pays a burn fee and a raffle fee into an
//! incentive pot, each purchase is assigned a tiered pseudo-random time lock,
//! and the pot is paid out to a single winner per fixed-length cycle.
//!
//! This crate holds the economic state machine itself: each public operation
//! is a pure, checked transition over [`state::ProgramState`] and plain
//! values. Ledger transfers, mints, burns and account storage are the host
//! environment's job; it reads balances and the clock, hands them in as
//! arguments, and performs the transfers an operation asks for.
use vstd::prelude::*;

pub mod curve;
pub mod cycle;
pub mod fees;
pub mod laws;
pub mod lock;
pub mod state;

verus! {

/// Burn fee on buys, in hundred-thousandths of the gross token amount.
pub const BURN_FEE_BPS: u16 = 69;
/// Dev fee rate: defined as a named rate, never charged by any operation.
pub const DEV_FEE_BPS: u16 = 31;
/// Raffle fee on buys, accumulated into the airdrop pot.
pub const RAFFLE_FEE_BPS: u16 = 621;
/// Burn fee on sells, taken from the token amount being redeemed.
pub const SELL_BURN_FEE_BPS: u16 = 10;
/// Fee denominator: 100_000 = 100%.
pub const BASIS_POINTS: u32 = 100_000;

pub const PRICE_INCREMENT: u64 = 1;
pub const PRICE_DECREMENT: u64 = 1;
/// The price never falls below this floor on sells.
pub const MIN_PRICE: u64 = 100;

/// Token smallest-units per whole token; also the native-unit scale used by
/// the curve (tokens = native * SCALE / price, proceeds = tokens * price / SCALE).
pub const TOKEN_SCALE: u64 = 1_000_000_000;

/// Lock tier durations, in seconds (minimum inclusive, maximum exclusive).
pub const TIER1_MIN: i64 = 5 * 60;
pub const TIER1_MAX: i64 = 5 * 60 * 60;
pub const TIER2_MIN: i64 = 4 * 60;
pub const TIER2_MAX: i64 = 4 * 60 * 60;
pub const TIER3_MIN: i64 = 3 * 60;
pub const TIER3_MAX: i64 = 3 * 60 * 60;
pub const TIER4_MIN: i64 = 1 * 60;
pub const TIER4_MAX: i64 = 1 * 60 * 60;

/// Native-amount thresholds separating the lock tiers (smallest denomination).
pub const TIER1_THRESHOLD: u64 = 100_000_000;
pub const TIER2_THRESHOLD: u64 = 500_000_000;
pub const TIER3_THRESHOLD: u64 = 1_000_000_000;

/// Bounds on a single buy, in native smallest-units.
pub const MIN_BUY_AMOUNT: u64 = 10_000_000;
pub const MAX_BUY_AMOUNT: u64 = 100_000_000_000;
/// Minimum token amount for a sell.
pub const MIN_SELL_AMOUNT: u64 = 1_000_000_000;

/// Length of one airdrop cycle, in seconds.
pub const AIRDROP_INTERVAL: i64 = 300;
/// Minimum token balance a recipient must hold to be awarded the pot.
pub const MIN_AIRDROP_ELIGIBLE: u64 = 10_000_000_000_000;

} // verus!
