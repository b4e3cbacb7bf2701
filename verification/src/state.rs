//! The records the market operates on, and its error taxonomy.
use vstd::prelude::*;

verus! {

/// A 32-byte account address, held as four 64-bit little-endian words.
/// The market only ever compares addresses for equality and copies them
/// into records; the host environment converts to and from its own key type.
#[derive(Clone, Copy, PartialEq, Eq, Structural, Debug)]
pub struct AccountId {
    pub w0: u64,
    pub w1: u64,
    pub w2: u64,
    pub w3: u64,
}

/// The shared market record: curve price, running counters, and the airdrop
/// cycle's pot, boundary clock and one-shot flag. One instance, mutated in
/// place by each operation; every failing operation leaves it unchanged.
#[derive(Clone, Copy, PartialEq, Eq, Structural, Debug)]
pub struct ProgramState {
    /// Identity allowed to run the privileged operations.
    pub authority: AccountId,
    /// Identity of the fungible asset this market trades.
    pub token_mint: AccountId,
    /// Native smallest-units per `TOKEN_SCALE` token smallest-units.
    pub current_price: u64,
    /// Total tokens ever taken as burn fees; non-decreasing.
    pub total_burned: u64,
    /// Number of successful buys; non-decreasing.
    pub total_buys: u64,
    /// Earliest time the next cycle reset is allowed; a multiple of
    /// `AIRDROP_INTERVAL`.
    pub next_airdrop_time: i64,
    /// The incentive pot: accumulates raffle fees, paid out whole on award.
    pub airdrop_amount: u64,
    /// Time of the last award, i.e. the last cycle transition.
    pub last_airdrop_cycle: i64,
    /// True iff the current cycle has already paid its single winner.
    pub airdrop_executed: bool,
    /// Storage-derivation byte kept for the host environment.
    pub bump: u8,
}

/// Receipt for one buy: what was paid, what was received, and the advisory
/// unlock time assigned by the lock scheduler. Nothing in this core enforces
/// the lock; the receipt is audit metadata.
#[derive(Clone, Copy, PartialEq, Eq, Structural, Debug)]
pub struct PurchaseOrder {
    pub buyer: AccountId,
    pub sol_amount: u64,
    pub token_amount: u64,
    pub timestamp: i64,
    pub unlock_time: i64,
    pub bump: u8,
}

/// The most recent winner; a singleton record overwritten on each award.
#[derive(Clone, Copy, PartialEq, Eq, Structural, Debug)]
pub struct LastAirdrop {
    pub winner: AccountId,
    pub winner_token_account: AccountId,
    pub amount: u64,
    pub timestamp: i64,
    pub bump: u8,
}

/// Every failure an operation can report. Failures never mutate state.
#[derive(Clone, Copy, PartialEq, Eq, Structural, Debug)]
pub enum ErrorCode {
    TokensStillLocked,
    InsufficientBalance,
    Unauthorized,
    ArithmeticOverflow,
    InsufficientVaultBalance,
    InvalidPrice,
    BuyAmountTooSmall,
    BuyAmountTooLarge,
    SellAmountTooSmall,
    NotEligibleForAirdrop,
    AirdropNotReady,
    AirdropAlreadyExecuted,
}

} // verus!
