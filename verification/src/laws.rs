//! The market's cross-operation guarantees, stated and proved over the
//! transition spec functions that the operations' own contracts use.
use vstd::prelude::*;
use crate::curve::{spec_buy, spec_sell};
use crate::cycle::{lemma_next_airdrop_time_aligned, spec_airdrop, spec_reset_airdrop_cycle};
use crate::fees::spec_fee;
use crate::state::{AccountId, ErrorCode, LastAirdrop, ProgramState};
use crate::{AIRDROP_INTERVAL, MIN_PRICE, SELL_BURN_FEE_BPS, TOKEN_SCALE};

verus! {

/// Some successful buy connects `s1` to `s2`.
pub open spec fn is_buy_step(s1: ProgramState, s2: ProgramState) -> bool {
    exists|
        buyer: AccountId,
        sol_amount: u64,
        now: i64,
        slot: u64,
        entropy: Seq<u8>,
        order_bump: u8,
    |
        #[trigger] spec_buy(s1, buyer, sol_amount, now, slot, entropy, order_bump) matches Ok(p)
            && p.0 == s2
}

/// Some successful sell connects `s1` to `s2`.
pub open spec fn is_sell_step(s1: ProgramState, s2: ProgramState) -> bool {
    exists|token_amount: u64, seller_balance: u64, vault_lamports: u64|
        #[trigger] spec_sell(s1, token_amount, seller_balance, vault_lamports) matches Ok(p)
            && p.0 == s2
}

/// Some successful trade, buy or sell, connects `s1` to `s2`.
pub open spec fn is_trade_step(s1: ProgramState, s2: ProgramState) -> bool {
    is_buy_step(s1, s2) || is_sell_step(s1, s2)
}

/// Every successful buy strictly raises the price: the price increase is at
/// least one whatever the amounts.
pub proof fn lemma_buy_step_raises_price(s1: ProgramState, s2: ProgramState)
    requires
        is_buy_step(s1, s2),
    ensures
        s1.current_price < s2.current_price,
{
    let (buyer, sol_amount, now, slot, entropy, order_bump) = choose|
        buyer: AccountId,
        sol_amount: u64,
        now: i64,
        slot: u64,
        entropy: Seq<u8>,
        order_bump: u8,
    |
        #[trigger] spec_buy(s1, buyer, sol_amount, now, slot, entropy, order_bump) matches Ok(p)
            && p.0 == s2;
    assert(spec_buy(s1, buyer, sol_amount, now, slot, entropy, order_bump) matches Ok(p)
        && p.0 == s2);
}

/// Across any sequence of successful buys the price is non-decreasing.
pub proof fn lemma_price_nondecreasing_over_buys(states: Seq<ProgramState>)
    requires
        forall|i: int|
            0 <= i < states.len() - 1 ==> #[trigger] is_buy_step(states[i], states[i + 1]),
    ensures
        forall|i: int, j: int|
            0 <= i <= j < states.len() ==> states[i].current_price <= states[j].current_price,
{
    assert forall|i: int, j: int|
        0 <= i <= j < states.len() implies states[i].current_price
        <= states[j].current_price by {
        lemma_buy_chain(states, i, j);
    }
}

proof fn lemma_buy_chain(states: Seq<ProgramState>, i: int, j: int)
    requires
        forall|k: int|
            0 <= k < states.len() - 1 ==> #[trigger] is_buy_step(states[k], states[k + 1]),
        0 <= i <= j < states.len(),
    ensures
        states[i].current_price <= states[j].current_price,
    decreases j - i,
{
    if i < j {
        lemma_buy_chain(states, i, j - 1);
        let k = j - 1;
        assert(is_buy_step(states[k], states[k + 1]));
        lemma_buy_step_raises_price(states[j - 1], states[j]);
    }
}

/// Every successful sell leaves the price at or above `MIN_PRICE`, whatever
/// it was before.
pub proof fn lemma_sell_step_keeps_floor(s1: ProgramState, s2: ProgramState)
    requires
        is_sell_step(s1, s2),
    ensures
        s2.current_price >= MIN_PRICE,
{
    let (token_amount, seller_balance, vault_lamports) = choose|
        token_amount: u64,
        seller_balance: u64,
        vault_lamports: u64,
    |
        #[trigger] spec_sell(s1, token_amount, seller_balance, vault_lamports) matches Ok(p)
            && p.0 == s2;
    assert(spec_sell(s1, token_amount, seller_balance, vault_lamports) matches Ok(p) && p.0 == s2);
}

/// Across any sequence of successful trades that starts at or above
/// `MIN_PRICE`, the price never falls below `MIN_PRICE`.
pub proof fn lemma_price_floor_over_trades(states: Seq<ProgramState>)
    requires
        states.len() > 0,
        states[0].current_price >= MIN_PRICE,
        forall|i: int|
            0 <= i < states.len() - 1 ==> #[trigger] is_trade_step(states[i], states[i + 1]),
    ensures
        forall|i: int| 0 <= i < states.len() ==> states[i].current_price >= MIN_PRICE,
{
    assert forall|i: int| 0 <= i < states.len() implies states[i].current_price >= MIN_PRICE by {
        lemma_trade_chain_floor(states, i);
    }
}

proof fn lemma_trade_chain_floor(states: Seq<ProgramState>, i: int)
    requires
        states.len() > 0,
        states[0].current_price >= MIN_PRICE,
        forall|k: int|
            0 <= k < states.len() - 1 ==> #[trigger] is_trade_step(states[k], states[k + 1]),
        0 <= i < states.len(),
    ensures
        states[i].current_price >= MIN_PRICE,
    decreases i,
{
    if i > 0 {
        lemma_trade_chain_floor(states, i - 1);
        let k = i - 1;
        assert(is_trade_step(states[k], states[k + 1]));
        if is_buy_step(states[i - 1], states[i]) {
            lemma_buy_step_raises_price(states[i - 1], states[i]);
        } else {
            lemma_sell_step_keeps_floor(states[i - 1], states[i]);
        }
    }
}

/// The running counters never decrease: every successful trade leaves
/// `total_burned` and `total_buys` at or above their previous values.
pub proof fn lemma_trade_counters_nondecreasing(s1: ProgramState, s2: ProgramState)
    requires
        is_trade_step(s1, s2),
    ensures
        s1.total_burned <= s2.total_burned,
        s1.total_buys <= s2.total_buys,
{
    if is_buy_step(s1, s2) {
        let (buyer, sol_amount, now, slot, entropy, order_bump) = choose|
            buyer: AccountId,
            sol_amount: u64,
            now: i64,
            slot: u64,
            entropy: Seq<u8>,
            order_bump: u8,
        |
            #[trigger] spec_buy(s1, buyer, sol_amount, now, slot, entropy, order_bump) matches Ok(
                p,
            ) && p.0 == s2;
        assert(spec_buy(s1, buyer, sol_amount, now, slot, entropy, order_bump) matches Ok(p)
            && p.0 == s2);
        crate::fees::lemma_fee_pair_bounded(
            sol_amount * crate::TOKEN_SCALE / (s1.current_price as int),
            crate::BURN_FEE_BPS as int,
            crate::RAFFLE_FEE_BPS as int,
        );
    } else {
        let (token_amount, seller_balance, vault_lamports) = choose|
            token_amount: u64,
            seller_balance: u64,
            vault_lamports: u64,
        |
            #[trigger] spec_sell(s1, token_amount, seller_balance, vault_lamports) matches Ok(p)
                && p.0 == s2;
        assert(spec_sell(s1, token_amount, seller_balance, vault_lamports) matches Ok(p)
            && p.0 == s2);
        crate::fees::lemma_fee_le_gross(token_amount as int, SELL_BURN_FEE_BPS as int);
    }
}

/// A successful buy accounts for the gross token amount exactly: the tokens
/// minted to the buyer, the growth of the burn counter and the growth of the
/// pot sum to `sol_amount * TOKEN_SCALE / price` with no rounding loss.
pub proof fn lemma_buy_conserves_gross(
    s: ProgramState,
    buyer: AccountId,
    sol_amount: u64,
    now: i64,
    slot: u64,
    entropy: Seq<u8>,
    order_bump: u8,
)
    requires
        spec_buy(s, buyer, sol_amount, now, slot, entropy, order_bump) is Ok,
    ensures
        ({
            let (s2, order) = spec_buy(s, buyer, sol_amount, now, slot, entropy, order_bump)->Ok_0;
            order.token_amount + (s2.total_burned - s.total_burned) + (s2.airdrop_amount
                - s.airdrop_amount) == sol_amount * TOKEN_SCALE / (s.current_price as int)
        }),
{
}

/// A successful sell pays out exactly the floor of the net token amount at
/// the pre-trade price, and never more than the vault holds, so the vault
/// can fund the payout in full: its balance after is `vault_lamports` minus
/// the proceeds, still non-negative.
pub proof fn lemma_sell_proceeds_exact(
    s: ProgramState,
    token_amount: u64,
    seller_balance: u64,
    vault_lamports: u64,
)
    requires
        spec_sell(s, token_amount, seller_balance, vault_lamports) is Ok,
    ensures
        ({
            let (s2, sol_out) = spec_sell(s, token_amount, seller_balance, vault_lamports)->Ok_0;
            &&& sol_out == (token_amount - spec_fee(token_amount as int, SELL_BURN_FEE_BPS as int))
                * s.current_price / (TOKEN_SCALE as int)
            &&& sol_out <= vault_lamports
        }),
{
}

/// Resetting the cycle cannot be repeated at once: a successful reset leaves
/// a boundary strictly after `now`, so a second reset at the same time fails
/// with `AirdropNotReady` (and, by the operation's contract, changes
/// nothing).
pub proof fn lemma_reset_cycle_once(s: ProgramState, caller: AccountId, now: i64)
    requires
        now <= i64::MAX - AIRDROP_INTERVAL,
        spec_reset_airdrop_cycle(s, caller, now) is Ok,
    ensures
        spec_reset_airdrop_cycle(spec_reset_airdrop_cycle(s, caller, now)->Ok_0, caller, now)
            == Err::<ProgramState, ErrorCode>(ErrorCode::AirdropNotReady),
{
    lemma_next_airdrop_time_aligned(now as int);
}

/// At most one winner per cycle: after a successful award, any further award
/// in the same cycle, by the owner, fails with `AirdropAlreadyExecuted` (and,
/// by the operation's contract, changes nothing: the pot stays zero and the
/// winner record is not overwritten).
pub proof fn lemma_single_winner_per_cycle(
    s: ProgramState,
    caller1: AccountId,
    winner1: AccountId,
    winner_token_account1: AccountId,
    recipient_balance1: u64,
    now1: i64,
    record_bump1: u8,
    winner2: AccountId,
    winner_token_account2: AccountId,
    recipient_balance2: u64,
    now2: i64,
    record_bump2: u8,
)
    requires
        spec_airdrop(
            s,
            caller1,
            winner1,
            winner_token_account1,
            recipient_balance1,
            now1,
            record_bump1,
        ) is Ok,
    ensures
        spec_airdrop(
            spec_airdrop(
                s,
                caller1,
                winner1,
                winner_token_account1,
                recipient_balance1,
                now1,
                record_bump1,
            )->Ok_0.0,
            s.authority,
            winner2,
            winner_token_account2,
            recipient_balance2,
            now2,
            record_bump2,
        ) == Err::<(ProgramState, LastAirdrop), ErrorCode>(ErrorCode::AirdropAlreadyExecuted),
{
}

/// A successful award pays the whole pot to the winner and resets it: the
/// winner record carries exactly the pot that had accumulated, and the new
/// pot is zero.
pub proof fn lemma_award_pays_whole_pot(
    s: ProgramState,
    caller: AccountId,
    winner: AccountId,
    winner_token_account: AccountId,
    recipient_balance: u64,
    now: i64,
    record_bump: u8,
)
    requires
        spec_airdrop(s, caller, winner, winner_token_account, recipient_balance, now, record_bump)
            is Ok,
    ensures
        ({
            let (s2, record) = spec_airdrop(
                s,
                caller,
                winner,
                winner_token_account,
                recipient_balance,
                now,
                record_bump,
            )->Ok_0;
            &&& record.amount == s.airdrop_amount
            &&& record.winner == winner
            &&& s2.airdrop_amount == 0
            &&& s2.airdrop_executed
        }),
{
}

} // verus!
