//! The bonding curve: buy and sell as checked, atomic transitions over the
//! market record. Each exec function either returns `Ok` and commits exactly
//! the transition its spec function describes, or returns the named error and
//! leaves the record untouched. The caller performs the transfers (deposit
//! native amount and mint tokens on a buy; burn tokens and pay proceeds on a
//! sell) and aborts the whole operation if any of them fails.
use vstd::prelude::*;
use crate::fees::{fee, spec_fee};
use crate::lock::{calculate_lock_duration, spec_lock_duration};
use crate::state::{AccountId, ErrorCode, ProgramState, PurchaseOrder};
use crate::{
    BURN_FEE_BPS, MAX_BUY_AMOUNT, MIN_BUY_AMOUNT, MIN_PRICE, MIN_SELL_AMOUNT, RAFFLE_FEE_BPS,
    SELL_BURN_FEE_BPS, TIER1_MAX, TOKEN_SCALE,
};

verus! {

/// The buy transition. Either the updated market record and the purchase
/// receipt, or the error the inputs earn:
/// - amount bounds and a nonzero price are checked first;
/// - gross tokens are `sol_amount * TOKEN_SCALE / price`, rounded down;
/// - the burn and raffle fees come out of the gross amount and the buyer
///   receives the rest, so the three parts sum to the gross amount exactly;
/// - the price rises by `max(1, sol_amount / TOKEN_SCALE)`;
/// - any intermediate that leaves `u64` range is `ArithmeticOverflow`.
pub open spec fn spec_buy(
    s: ProgramState,
    buyer: AccountId,
    sol_amount: u64,
    now: i64,
    slot: u64,
    entropy: Seq<u8>,
    order_bump: u8,
) -> Result<(ProgramState, PurchaseOrder), ErrorCode> {
    if sol_amount < MIN_BUY_AMOUNT {
        Err(ErrorCode::BuyAmountTooSmall)
    } else if sol_amount > MAX_BUY_AMOUNT {
        Err(ErrorCode::BuyAmountTooLarge)
    } else if s.current_price == 0 {
        Err(ErrorCode::InvalidPrice)
    } else if sol_amount * TOKEN_SCALE > u64::MAX {
        Err(ErrorCode::ArithmeticOverflow)
    } else {
        let gross = sol_amount * TOKEN_SCALE / (s.current_price as int);
        if gross * BURN_FEE_BPS > u64::MAX {
            Err(ErrorCode::ArithmeticOverflow)
        } else if gross * RAFFLE_FEE_BPS > u64::MAX {
            Err(ErrorCode::ArithmeticOverflow)
        } else {
            let burn = spec_fee(gross, BURN_FEE_BPS as int);
            let raffle = spec_fee(gross, RAFFLE_FEE_BPS as int);
            if gross - burn < 0 {
                Err(ErrorCode::ArithmeticOverflow)
            } else if gross - burn - raffle < 0 {
                Err(ErrorCode::ArithmeticOverflow)
            } else if s.total_burned + burn > u64::MAX {
                Err(ErrorCode::ArithmeticOverflow)
            } else if s.total_buys + 1 > u64::MAX {
                Err(ErrorCode::ArithmeticOverflow)
            } else if s.airdrop_amount + raffle > u64::MAX {
                Err(ErrorCode::ArithmeticOverflow)
            } else {
                let price_increase = if sol_amount / TOKEN_SCALE < 1 {
                    1int
                } else {
                    sol_amount as int / TOKEN_SCALE as int
                };
                if s.current_price + price_increase > u64::MAX {
                    Err(ErrorCode::ArithmeticOverflow)
                } else {
                    let duration = spec_lock_duration(sol_amount, now, slot, entropy);
                    Ok(
                        (
                            ProgramState {
                                current_price: (s.current_price + price_increase) as u64,
                                total_burned: (s.total_burned + burn) as u64,
                                total_buys: (s.total_buys + 1) as u64,
                                airdrop_amount: (s.airdrop_amount + raffle) as u64,
                                ..s
                            },
                            PurchaseOrder {
                                buyer,
                                sol_amount,
                                token_amount: (gross - burn - raffle) as u64,
                                timestamp: now,
                                unlock_time: (now + duration) as i64,
                                bump: order_bump,
                            },
                        ),
                    )
                }
            }
        }
    }
}

/// The sell transition. Either the updated market record and the native
/// proceeds owed to the seller, or the error the inputs earn:
/// - the amount bound, the seller's balance and a nonzero price come first;
/// - the sell burn fee comes out of the token amount, and proceeds are
///   `(token_amount - sell_burn) * price / TOKEN_SCALE`, rounded down;
/// - the vault must already hold the proceeds;
/// - the price falls by `max(1, proceeds / TOKEN_SCALE)`, saturating at zero,
///   and never ends below `MIN_PRICE`.
pub open spec fn spec_sell(
    s: ProgramState,
    token_amount: u64,
    seller_balance: u64,
    vault_lamports: u64,
) -> Result<(ProgramState, u64), ErrorCode> {
    if token_amount < MIN_SELL_AMOUNT {
        Err(ErrorCode::SellAmountTooSmall)
    } else if seller_balance < token_amount {
        Err(ErrorCode::InsufficientBalance)
    } else if s.current_price == 0 {
        Err(ErrorCode::InvalidPrice)
    } else if token_amount * SELL_BURN_FEE_BPS > u64::MAX {
        Err(ErrorCode::ArithmeticOverflow)
    } else {
        let sell_burn = spec_fee(token_amount as int, SELL_BURN_FEE_BPS as int);
        if token_amount - sell_burn < 0 {
            Err(ErrorCode::ArithmeticOverflow)
        } else if (token_amount - sell_burn) * s.current_price > u64::MAX {
            Err(ErrorCode::ArithmeticOverflow)
        } else {
            let sol_amount = (token_amount - sell_burn) * s.current_price / (TOKEN_SCALE as int);
            if vault_lamports < sol_amount {
                Err(ErrorCode::InsufficientVaultBalance)
            } else if s.total_burned + sell_burn > u64::MAX {
                Err(ErrorCode::ArithmeticOverflow)
            } else {
                let price_decrease = if sol_amount / (TOKEN_SCALE as int) < 1 {
                    1int
                } else {
                    sol_amount / (TOKEN_SCALE as int)
                };
                let lowered = if s.current_price - price_decrease < 0 {
                    0int
                } else {
                    s.current_price - price_decrease
                };
                let new_price = if lowered < MIN_PRICE {
                    MIN_PRICE as int
                } else {
                    lowered
                };
                Ok(
                    (
                        ProgramState {
                            current_price: new_price as u64,
                            total_burned: (s.total_burned + sell_burn) as u64,
                            ..s
                        },
                        sol_amount as u64,
                    ),
                )
            }
        }
    }
}

/// Buys tokens: computes the fee split and the tiered lock, raises the price,
/// grows the pot and the counters, and returns the purchase receipt. On any
/// error the market record is left exactly as it was. The caller must have
/// verified the buyer's signature, and on `Ok` must deposit `sol_amount`
/// into the vault and mint `token_amount` of the receipt to the buyer.
pub fn buy_tokens(
    state: &mut ProgramState,
    buyer: AccountId,
    sol_amount: u64,
    now: i64,
    slot: u64,
    slot_hashes_data: &[u8],
    order_bump: u8,
) -> (r: Result<PurchaseOrder, ErrorCode>)
    requires
        old(state).current_price > 0 ==> now <= i64::MAX - TIER1_MAX,
    ensures
        (match spec_buy(*old(state), buyer, sol_amount, now, slot, slot_hashes_data@, order_bump) {
            Ok(p) => r == Ok::<PurchaseOrder, ErrorCode>(p.1) && *final(state) == p.0,
            Err(e) => r == Err::<PurchaseOrder, ErrorCode>(e) && *final(state) == *old(state),
        }),
{
    if sol_amount < MIN_BUY_AMOUNT {
        return Err(ErrorCode::BuyAmountTooSmall);
    }
    if sol_amount > MAX_BUY_AMOUNT {
        return Err(ErrorCode::BuyAmountTooLarge);
    }
    if state.current_price == 0 {
        return Err(ErrorCode::InvalidPrice);
    }

    let scaled = match sol_amount.checked_mul(TOKEN_SCALE) {
        Some(v) => v,
        None => {
            return Err(ErrorCode::ArithmeticOverflow);
        },
    };
    let tokens_before_fees = scaled / state.current_price;

    let burn_amount = match fee(tokens_before_fees, BURN_FEE_BPS) {
        Ok(v) => v,
        Err(e) => {
            return Err(e);
        },
    };
    let raffle_fee_amount = match fee(tokens_before_fees, RAFFLE_FEE_BPS) {
        Ok(v) => v,
        Err(e) => {
            return Err(e);
        },
    };

    let after_burn = match tokens_before_fees.checked_sub(burn_amount) {
        Some(v) => v,
        None => {
            return Err(ErrorCode::ArithmeticOverflow);
        },
    };
    let tokens_to_buyer = match after_burn.checked_sub(raffle_fee_amount) {
        Some(v) => v,
        None => {
            return Err(ErrorCode::ArithmeticOverflow);
        },
    };

    let new_total_burned = match state.total_burned.checked_add(burn_amount) {
        Some(v) => v,
        None => {
            return Err(ErrorCode::ArithmeticOverflow);
        },
    };
    let new_total_buys = match state.total_buys.checked_add(1) {
        Some(v) => v,
        None => {
            return Err(ErrorCode::ArithmeticOverflow);
        },
    };
    let new_airdrop_amount = match state.airdrop_amount.checked_add(raffle_fee_amount) {
        Some(v) => v,
        None => {
            return Err(ErrorCode::ArithmeticOverflow);
        },
    };

    let quotient = sol_amount / TOKEN_SCALE;
    let price_increase: u64 = if quotient < 1 {
        1
    } else {
        quotient
    };
    let new_price = match state.current_price.checked_add(price_increase) {
        Some(v) => v,
        None => {
            return Err(ErrorCode::ArithmeticOverflow);
        },
    };

    let lock_duration = match calculate_lock_duration(sol_amount, now, slot, slot_hashes_data) {
        Ok(d) => d,
        Err(e) => {
            return Err(e);
        },
    };
    let unlock_time = now + lock_duration;

    state.total_burned = new_total_burned;
    state.total_buys = new_total_buys;
    state.airdrop_amount = new_airdrop_amount;
    state.current_price = new_price;

    Ok(
        PurchaseOrder {
            buyer,
            sol_amount,
            token_amount: tokens_to_buyer,
            timestamp: now,
            unlock_time,
            bump: order_bump,
        },
    )
}

/// Sells tokens back to the curve: takes the sell burn fee, computes the
/// native proceeds at the current price, and lowers the price no further
/// than `MIN_PRICE`. On any error the market record is left exactly as it
/// was. The caller must have verified the seller's signature, reads
/// `seller_balance` and `vault_lamports` from the ledger beforehand, and on
/// `Ok` must burn `token_amount` from the seller and pay out the returned
/// proceeds from the vault.
pub fn sell_tokens(
    state: &mut ProgramState,
    token_amount: u64,
    seller_balance: u64,
    vault_lamports: u64,
) -> (r: Result<u64, ErrorCode>)
    ensures
        (match spec_sell(*old(state), token_amount, seller_balance, vault_lamports) {
            Ok(p) => r == Ok::<u64, ErrorCode>(p.1) && *final(state) == p.0,
            Err(e) => r == Err::<u64, ErrorCode>(e) && *final(state) == *old(state),
        }),
{
    if token_amount < MIN_SELL_AMOUNT {
        return Err(ErrorCode::SellAmountTooSmall);
    }
    if seller_balance < token_amount {
        return Err(ErrorCode::InsufficientBalance);
    }
    if state.current_price == 0 {
        return Err(ErrorCode::InvalidPrice);
    }

    let sell_burn = match fee(token_amount, SELL_BURN_FEE_BPS) {
        Ok(v) => v,
        Err(e) => {
            return Err(e);
        },
    };
    let tokens_to_convert = match token_amount.checked_sub(sell_burn) {
        Some(v) => v,
        None => {
            return Err(ErrorCode::ArithmeticOverflow);
        },
    };

    let sol_amount = match tokens_to_convert.checked_mul(state.current_price) {
        Some(v) => v / TOKEN_SCALE,
        None => {
            return Err(ErrorCode::ArithmeticOverflow);
        },
    };

    if vault_lamports < sol_amount {
        return Err(ErrorCode::InsufficientVaultBalance);
    }

    let new_total_burned = match state.total_burned.checked_add(sell_burn) {
        Some(v) => v,
        None => {
            return Err(ErrorCode::ArithmeticOverflow);
        },
    };

    let quotient = sol_amount / TOKEN_SCALE;
    let price_decrease: u64 = if quotient < 1 {
        1
    } else {
        quotient
    };
    let lowered: u64 = if state.current_price > price_decrease {
        state.current_price - price_decrease
    } else {
        0
    };
    let new_price: u64 = if lowered < MIN_PRICE {
        MIN_PRICE
    } else {
        lowered
    };

    state.total_burned = new_total_burned;
    state.current_price = new_price;

    Ok(sol_amount)
}

} // verus!
