//! The airdrop cycle state machine and the administrative operations:
//! interval-aligned cycle boundaries, the single-winner-per-cycle award, the
//! privileged cycle reset, and the owner-only settings overwrites. Every
//! failing operation leaves the market record exactly as it was.
use vstd::prelude::*;
use vstd::arithmetic::div_mod::{
    lemma_fundamental_div_mod, lemma_mod_bound, lemma_mod_multiples_basic,
    lemma_fundamental_div_mod_converse,
};
use crate::state::{AccountId, ErrorCode, LastAirdrop, ProgramState};
use crate::{AIRDROP_INTERVAL, MIN_AIRDROP_ELIGIBLE};

verus! {

/// The unique multiple of `AIRDROP_INTERVAL` strictly after `now` and no more
/// than one whole interval away.
pub open spec fn spec_next_airdrop_time(now: int) -> int {
    if now % (AIRDROP_INTERVAL as int) == 0 {
        now + AIRDROP_INTERVAL
    } else {
        now + AIRDROP_INTERVAL - now % (AIRDROP_INTERVAL as int)
    }
}

/// The next boundary is interval-aligned, strictly after `now`, and within
/// one interval of it; and it is the only such value.
pub proof fn lemma_next_airdrop_time_aligned(now: int)
    ensures
        spec_next_airdrop_time(now) % (AIRDROP_INTERVAL as int) == 0,
        now < spec_next_airdrop_time(now) <= now + AIRDROP_INTERVAL,
{
    let d = AIRDROP_INTERVAL as int;
    lemma_mod_bound(now, d);
    lemma_fundamental_div_mod(now, d);
    let q = now / d;
    if now % d == 0 {
        lemma_mod_multiples_basic(q + 1, d);
        assert((q + 1) * d == d * q + d) by (nonlinear_arith);
    } else {
        lemma_mod_multiples_basic(q + 1, d);
        assert((q + 1) * d == d * q + d) by (nonlinear_arith);
        assert(spec_next_airdrop_time(now) == (q + 1) * d);
    }
}

/// Computes the next interval-aligned airdrop boundary after `current_time`.
pub fn calculate_next_airdrop_time(current_time: i64) -> (r: i64)
    requires
        current_time <= i64::MAX - AIRDROP_INTERVAL,
    ensures
        r == spec_next_airdrop_time(current_time as int),
        (r as int) % (AIRDROP_INTERVAL as int) == 0,
        current_time < r <= current_time + AIRDROP_INTERVAL,
{
    proof {
        lemma_next_airdrop_time_aligned(current_time as int);
    }
    if current_time >= 0 {
        let rem: u64 = (current_time as u64) % (AIRDROP_INTERVAL as u64);
        if rem == 0 {
            current_time + AIRDROP_INTERVAL
        } else {
            current_time + (AIRDROP_INTERVAL - rem as i64)
        }
    } else {
        // `magnitude == -current_time`, computed without overflowing `i64`.
        let magnitude: u64 = ((-(current_time + 1)) as u64) + 1;
        let rem: u64 = magnitude % (AIRDROP_INTERVAL as u64);
        proof {
            lemma_neg_mod(current_time as int, AIRDROP_INTERVAL as int);
        }
        if rem == 0 {
            current_time + AIRDROP_INTERVAL
        } else {
            current_time + (rem as i64)
        }
    }
}

/// Relates the remainder of `-x` to the remainder of `x` for negative `x`:
/// either both vanish, or they sum to the divisor.
proof fn lemma_neg_mod(x: int, d: int)
    requires
        x < 0,
        d > 0,
    ensures
        (-x) % d == 0 ==> x % d == 0,
        (-x) % d != 0 ==> x % d == d - (-x) % d,
{
    let m = (-x) % d;
    let q = (-x) / d;
    lemma_mod_bound(-x, d);
    lemma_fundamental_div_mod(-x, d);
    if m == 0 {
        assert(x == d * (-q) + 0) by (nonlinear_arith)
            requires -x == d * q + m && m == 0;
        lemma_fundamental_div_mod_converse(x, d, -q, 0);
    } else {
        assert(x == d * (-q - 1) + (d - m)) by (nonlinear_arith)
            requires -x == d * q + m;
        lemma_fundamental_div_mod_converse(x, d, -q - 1, d - m);
    }
}

/// Creates the market record: the given price and pot seed, zeroed counters,
/// a fresh cycle whose boundary is the next aligned interval after `now`.
pub fn initialize(
    authority: AccountId,
    token_mint: AccountId,
    initial_price: u64,
    airdrop_amount: u64,
    now: i64,
    bump: u8,
) -> (s: ProgramState)
    requires
        now <= i64::MAX - AIRDROP_INTERVAL,
    ensures
        s == (ProgramState {
            authority,
            token_mint,
            current_price: initial_price,
            total_burned: 0,
            total_buys: 0,
            next_airdrop_time: spec_next_airdrop_time(now as int) as i64,
            airdrop_amount,
            last_airdrop_cycle: now,
            airdrop_executed: false,
            bump,
        }),
{
    let next_airdrop_time = calculate_next_airdrop_time(now);
    ProgramState {
        authority,
        token_mint,
        current_price: initial_price,
        total_burned: 0,
        total_buys: 0,
        next_airdrop_time,
        airdrop_amount,
        last_airdrop_cycle: now,
        airdrop_executed: false,
        bump,
    }
}

/// Decides whether the native vault still has to be created: owner-only, and
/// a vault that already holds funds is left alone. The caller performs the
/// creation when `Ok(true)` comes back.
pub fn initialize_vault(state: &ProgramState, caller: AccountId, vault_lamports: u64) -> (r:
    Result<bool, ErrorCode>)
    ensures
        caller != state.authority ==> r == Err::<bool, ErrorCode>(ErrorCode::Unauthorized),
        caller == state.authority ==> r == Ok::<bool, ErrorCode>(vault_lamports == 0),
{
    if caller != state.authority {
        return Err(ErrorCode::Unauthorized);
    }
    Ok(vault_lamports == 0)
}

/// The award transition: either the updated record and the winner record to
/// persist, or the error the inputs earn. Owner-only; at most one award per
/// cycle; the recipient must hold at least `MIN_AIRDROP_ELIGIBLE` tokens.
/// On success the whole pot goes to the winner and the pot resets to zero.
pub open spec fn spec_airdrop(
    s: ProgramState,
    caller: AccountId,
    winner: AccountId,
    winner_token_account: AccountId,
    recipient_balance: u64,
    now: i64,
    record_bump: u8,
) -> Result<(ProgramState, LastAirdrop), ErrorCode> {
    if caller != s.authority {
        Err(ErrorCode::Unauthorized)
    } else if s.airdrop_executed {
        Err(ErrorCode::AirdropAlreadyExecuted)
    } else if recipient_balance < MIN_AIRDROP_ELIGIBLE {
        Err(ErrorCode::NotEligibleForAirdrop)
    } else {
        Ok(
            (
                ProgramState {
                    airdrop_executed: true,
                    last_airdrop_cycle: now,
                    airdrop_amount: 0,
                    ..s
                },
                LastAirdrop {
                    winner,
                    winner_token_account,
                    amount: s.airdrop_amount,
                    timestamp: now,
                    bump: record_bump,
                },
            ),
        )
    }
}

/// Awards the whole pot to the single winner of the current cycle and marks
/// the cycle as paid. The recipient is chosen by the owner; this operation
/// validates only the eligibility threshold against the balance the caller
/// read from the ledger. On `Ok` the caller must mint `amount` of the
/// returned record to the winner and persist the record; on any error the
/// market record is left exactly as it was.
pub fn airdrop(
    state: &mut ProgramState,
    caller: AccountId,
    winner: AccountId,
    winner_token_account: AccountId,
    recipient_balance: u64,
    now: i64,
    record_bump: u8,
) -> (r: Result<LastAirdrop, ErrorCode>)
    ensures
        (match spec_airdrop(
            *old(state),
            caller,
            winner,
            winner_token_account,
            recipient_balance,
            now,
            record_bump,
        ) {
            Ok(p) => r == Ok::<LastAirdrop, ErrorCode>(p.1) && *final(state) == p.0,
            Err(e) => r == Err::<LastAirdrop, ErrorCode>(e) && *final(state) == *old(state),
        }),
{
    if caller != state.authority {
        return Err(ErrorCode::Unauthorized);
    }
    if state.airdrop_executed {
        return Err(ErrorCode::AirdropAlreadyExecuted);
    }
    if recipient_balance < MIN_AIRDROP_ELIGIBLE {
        return Err(ErrorCode::NotEligibleForAirdrop);
    }

    let amount = state.airdrop_amount;
    state.airdrop_executed = true;
    state.last_airdrop_cycle = now;
    state.airdrop_amount = 0;

    Ok(LastAirdrop { winner, winner_token_account, amount, timestamp: now, bump: record_bump })
}

/// The cycle reset transition: owner-only, allowed once the current boundary
/// has been reached; it re-arms the one-shot award flag and advances the
/// boundary to the next aligned interval strictly after `now`.
pub open spec fn spec_reset_airdrop_cycle(s: ProgramState, caller: AccountId, now: i64) -> Result<
    ProgramState,
    ErrorCode,
> {
    if caller != s.authority {
        Err(ErrorCode::Unauthorized)
    } else if now < s.next_airdrop_time {
        Err(ErrorCode::AirdropNotReady)
    } else {
        Ok(
            ProgramState {
                next_airdrop_time: spec_next_airdrop_time(now as int) as i64,
                airdrop_executed: false,
                ..s
            },
        )
    }
}

/// Re-arms the airdrop for the next cycle once the current boundary has been
/// reached; early calls fail with `AirdropNotReady` and change nothing.
pub fn reset_airdrop_cycle(state: &mut ProgramState, caller: AccountId, now: i64) -> (r: Result<
    (),
    ErrorCode,
>)
    requires
        now <= i64::MAX - AIRDROP_INTERVAL,
    ensures
        (match spec_reset_airdrop_cycle(*old(state), caller, now) {
            Ok(s2) => r == Ok::<(), ErrorCode>(()) && *final(state) == s2,
            Err(e) => r == Err::<(), ErrorCode>(e) && *final(state) == *old(state),
        }),
{
    if caller != state.authority {
        return Err(ErrorCode::Unauthorized);
    }
    if now < state.next_airdrop_time {
        return Err(ErrorCode::AirdropNotReady);
    }

    state.next_airdrop_time = calculate_next_airdrop_time(now);
    state.airdrop_executed = false;
    Ok(())
}

/// Overwrites the pot with a new value: an owner-only administrative
/// operation with no further validation.
pub fn update_airdrop_settings(state: &mut ProgramState, caller: AccountId, new_amount: u64) -> (r:
    Result<(), ErrorCode>)
    ensures
        caller != old(state).authority ==> r == Err::<(), ErrorCode>(ErrorCode::Unauthorized)
            && *final(state) == *old(state),
        caller == old(state).authority ==> r == Ok::<(), ErrorCode>(()) && *final(state) == (
        ProgramState { airdrop_amount: new_amount, ..*old(state) }),
{
    if caller != state.authority {
        return Err(ErrorCode::Unauthorized);
    }
    state.airdrop_amount = new_amount;
    Ok(())
}

/// Overwrites the traded asset's identity: an owner-only administrative
/// operation kept for migrations, with no further validation.
pub fn update_token_mint(state: &mut ProgramState, caller: AccountId, new_token_mint: AccountId)
    -> (r: Result<(), ErrorCode>)
    ensures
        caller != old(state).authority ==> r == Err::<(), ErrorCode>(ErrorCode::Unauthorized)
            && *final(state) == *old(state),
        caller == old(state).authority ==> r == Ok::<(), ErrorCode>(()) && *final(state) == (
        ProgramState { token_mint: new_token_mint, ..*old(state) }),
{
    if caller != state.authority {
        return Err(ErrorCode::Unauthorized);
    }
    state.token_mint = new_token_mint;
    Ok(())
}

} // verus!
