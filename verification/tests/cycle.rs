//! Airdrop cycle, award and administrative operations on concrete states.
use fossr::cycle::{
    airdrop, calculate_next_airdrop_time, initialize, initialize_vault, reset_airdrop_cycle,
    update_airdrop_settings, update_token_mint,
};
use fossr::state::{AccountId, ErrorCode};
use fossr::MIN_AIRDROP_ELIGIBLE;

fn key(tag: u64) -> AccountId {
    AccountId { w0: tag, w1: tag + 1, w2: tag + 2, w3: tag + 3 }
}

#[test]
fn initialize_sets_every_field() {
    let s = initialize(key(1), key(2), 250, 900, 1_700_000_000, 254);
    assert_eq!(s.authority, key(1));
    assert_eq!(s.token_mint, key(2));
    assert_eq!(s.current_price, 250);
    assert_eq!(s.total_burned, 0);
    assert_eq!(s.total_buys, 0);
    assert_eq!(s.airdrop_amount, 900);
    assert_eq!(s.last_airdrop_cycle, 1_700_000_000);
    assert!(!s.airdrop_executed);
    assert_eq!(s.bump, 254);
    // 1_700_000_000 % 300 == 200, so the next boundary is 100 seconds on.
    assert_eq!(s.next_airdrop_time, 1_700_000_100);
}

#[test]
fn next_airdrop_time_aligns_up() {
    assert_eq!(calculate_next_airdrop_time(0), 300);
    assert_eq!(calculate_next_airdrop_time(299), 300);
    assert_eq!(calculate_next_airdrop_time(300), 600);
    assert_eq!(calculate_next_airdrop_time(301), 600);
    // Pre-epoch clocks still land on the next aligned boundary.
    assert_eq!(calculate_next_airdrop_time(-7), 0);
    assert_eq!(calculate_next_airdrop_time(-300), 0);
    assert_eq!(calculate_next_airdrop_time(-301), -300);
}

#[test]
fn award_pays_whole_pot_and_resets_it() {
    let owner = key(1);
    let mut s = initialize(owner, key(2), 100, 5_000, 0, 0);
    let rec = airdrop(&mut s, owner, key(40), key(41), MIN_AIRDROP_ELIGIBLE, 123, 9).unwrap();
    assert_eq!(rec.winner, key(40));
    assert_eq!(rec.winner_token_account, key(41));
    assert_eq!(rec.amount, 5_000);
    assert_eq!(rec.timestamp, 123);
    assert_eq!(rec.bump, 9);
    assert_eq!(s.airdrop_amount, 0);
    assert!(s.airdrop_executed);
    assert_eq!(s.last_airdrop_cycle, 123);
}

#[test]
fn award_is_single_winner_per_cycle() {
    let owner = key(1);
    let mut s = initialize(owner, key(2), 100, 5_000, 0, 0);
    airdrop(&mut s, owner, key(40), key(41), MIN_AIRDROP_ELIGIBLE, 123, 9).unwrap();
    let after_first = s;
    let second = airdrop(&mut s, owner, key(50), key(51), MIN_AIRDROP_ELIGIBLE, 124, 9);
    assert_eq!(second, Err(ErrorCode::AirdropAlreadyExecuted));
    assert_eq!(s, after_first);
}

#[test]
fn award_requires_owner() {
    let mut s = initialize(key(1), key(2), 100, 5_000, 0, 0);
    let before = s;
    let r = airdrop(&mut s, key(99), key(40), key(41), MIN_AIRDROP_ELIGIBLE, 123, 9);
    assert_eq!(r, Err(ErrorCode::Unauthorized));
    assert_eq!(s, before);
}

#[test]
fn award_requires_eligible_recipient() {
    let owner = key(1);
    let mut s = initialize(owner, key(2), 100, 5_000, 0, 0);
    let r = airdrop(&mut s, owner, key(40), key(41), MIN_AIRDROP_ELIGIBLE - 1, 123, 9);
    assert_eq!(r, Err(ErrorCode::NotEligibleForAirdrop));
    assert_eq!(s.airdrop_amount, 5_000);
}

#[test]
fn reset_cycle_advances_boundary_and_rearms() {
    let owner = key(1);
    let mut s = initialize(owner, key(2), 100, 0, 0, 0);
    assert_eq!(s.next_airdrop_time, 300);
    airdrop(&mut s, owner, key(40), key(41), MIN_AIRDROP_ELIGIBLE, 10, 0).unwrap();
    assert!(s.airdrop_executed);
    reset_airdrop_cycle(&mut s, owner, 300).unwrap();
    assert_eq!(s.next_airdrop_time, 600);
    assert!(!s.airdrop_executed);
}

#[test]
fn reset_cycle_twice_fails_second_time() {
    let owner = key(1);
    let mut s = initialize(owner, key(2), 100, 0, 0, 0);
    reset_airdrop_cycle(&mut s, owner, 450).unwrap();
    let after_first = s;
    let second = reset_airdrop_cycle(&mut s, owner, 450);
    assert_eq!(second, Err(ErrorCode::AirdropNotReady));
    assert_eq!(s, after_first);
}

#[test]
fn reset_cycle_early_fails() {
    let owner = key(1);
    let mut s = initialize(owner, key(2), 100, 0, 0, 0);
    let r = reset_airdrop_cycle(&mut s, owner, 299);
    assert_eq!(r, Err(ErrorCode::AirdropNotReady));
}

#[test]
fn reset_cycle_requires_owner() {
    let mut s = initialize(key(1), key(2), 100, 0, 0, 0);
    let r = reset_airdrop_cycle(&mut s, key(99), 1_000);
    assert_eq!(r, Err(ErrorCode::Unauthorized));
}

#[test]
fn update_settings_overwrites_pot() {
    let owner = key(1);
    let mut s = initialize(owner, key(2), 100, 5, 0, 0);
    update_airdrop_settings(&mut s, owner, 777).unwrap();
    assert_eq!(s.airdrop_amount, 777);
    let r = update_airdrop_settings(&mut s, key(99), 1);
    assert_eq!(r, Err(ErrorCode::Unauthorized));
    assert_eq!(s.airdrop_amount, 777);
}

#[test]
fn update_token_mint_overwrites_reference() {
    let owner = key(1);
    let mut s = initialize(owner, key(2), 100, 0, 0, 0);
    update_token_mint(&mut s, owner, key(60)).unwrap();
    assert_eq!(s.token_mint, key(60));
    let r = update_token_mint(&mut s, key(99), key(70));
    assert_eq!(r, Err(ErrorCode::Unauthorized));
    assert_eq!(s.token_mint, key(60));
}

#[test]
fn initialize_vault_decides_creation() {
    let owner = key(1);
    let s = initialize(owner, key(2), 100, 0, 0, 0);
    assert_eq!(initialize_vault(&s, owner, 0), Ok(true));
    assert_eq!(initialize_vault(&s, owner, 890_880), Ok(false));
    assert_eq!(initialize_vault(&s, key(99), 0), Err(ErrorCode::Unauthorized));
}
