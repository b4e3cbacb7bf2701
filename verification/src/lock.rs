//! The lock scheduler: picks a lock-duration tier from the size of a buy and
//! derives a pseudo-random offset within the tier's range from a recent-hash
//! byte fragment, the clock and a monotonic slot counter. Pure: the duration
//! is a function of its four arguments alone.
use vstd::prelude::*;
use vstd::arithmetic::div_mod::lemma_mod_bound;
use crate::{
    TIER1_MAX, TIER1_MIN, TIER1_THRESHOLD, TIER2_MAX, TIER2_MIN, TIER2_THRESHOLD, TIER3_MAX,
    TIER3_MIN, TIER3_THRESHOLD, TIER4_MAX, TIER4_MIN,
};
use crate::state::ErrorCode;

verus! {

/// Inclusive lower bound of the lock range for a buy of `sol_amount`.
/// A buy at or above a threshold takes the higher tier (shorter locks).
pub open spec fn spec_tier_min(sol_amount: u64) -> i64 {
    if sol_amount < TIER1_THRESHOLD {
        TIER1_MIN
    } else if sol_amount < TIER2_THRESHOLD {
        TIER2_MIN
    } else if sol_amount < TIER3_THRESHOLD {
        TIER3_MIN
    } else {
        TIER4_MIN
    }
}

/// Exclusive upper bound of the lock range for a buy of `sol_amount`.
pub open spec fn spec_tier_max(sol_amount: u64) -> i64 {
    if sol_amount < TIER1_THRESHOLD {
        TIER1_MAX
    } else if sol_amount < TIER2_THRESHOLD {
        TIER2_MAX
    } else if sol_amount < TIER3_THRESHOLD {
        TIER3_MAX
    } else {
        TIER4_MAX
    }
}

/// An `i64` reinterpreted as the unsigned 64-bit value with the same bits.
pub open spec fn spec_as_unsigned(x: i64) -> u64 {
    if x >= 0 {
        x as u64
    } else {
        (x + 0x1_0000_0000_0000_0000) as u64
    }
}

/// The first 8 bytes of `b` read as a little-endian unsigned integer.
pub open spec fn spec_le8(b: Seq<u8>) -> int {
    b[0] + b[1] * 0x100 + b[2] * 0x1_0000 + b[3] * 0x100_0000 + b[4] * 0x1_0000_0000
        + b[5] * 0x100_0000_0000 + b[6] * 0x1_0000_0000_0000 + b[7] * 0x100_0000_0000_0000
}

/// The entropy seed: the first 8 bytes of the recent-hash fragment when at
/// least 8 are available, else the timestamp cast to unsigned.
pub open spec fn spec_entropy_seed(entropy: Seq<u8>, timestamp: i64) -> u64 {
    if entropy.len() >= 8 {
        spec_le8(entropy) as u64
    } else {
        spec_as_unsigned(timestamp)
    }
}

/// The assigned lock duration: the tier minimum plus an offset below the
/// tier's range, drawn from seed, clock and counter mixed by wrapping
/// addition (wraparound is intended entropy mixing, not a failure).
pub open spec fn spec_lock_duration(
    sol_amount: u64,
    timestamp: i64,
    slot: u64,
    entropy: Seq<u8>,
) -> int {
    let range = spec_tier_max(sol_amount) - spec_tier_min(sol_amount);
    let combined = vstd::wrapping::u64_specs::wrapping_add(
        vstd::wrapping::u64_specs::wrapping_add(
            spec_entropy_seed(entropy, timestamp),
            spec_as_unsigned(timestamp),
        ),
        slot,
    );
    spec_tier_min(sol_amount) + (combined as int) % range
}

/// Reads the first 8 bytes of `b` as a little-endian unsigned integer.
fn le8(b: &[u8]) -> (r: u64)
    requires
        b@.len() >= 8,
    ensures
        r == spec_le8(b@),
{
    (b[0] as u64) + (b[1] as u64) * 0x100 + (b[2] as u64) * 0x1_0000 + (b[3] as u64) * 0x100_0000
        + (b[4] as u64) * 0x1_0000_0000 + (b[5] as u64) * 0x100_0000_0000
        + (b[6] as u64) * 0x1_0000_0000_0000 + (b[7] as u64) * 0x100_0000_0000_0000
}

/// Reinterprets a signed 64-bit value as unsigned, two's-complement style.
fn as_unsigned(x: i64) -> (r: u64)
    ensures
        r == spec_as_unsigned(x),
{
    if x >= 0 {
        x as u64
    } else {
        u64::MAX - ((-(x + 1)) as u64)
    }
}

/// Selects the lock tier for `sol_amount` and assigns a pseudo-random lock
/// duration within it: at least the tier minimum, strictly below the tier
/// maximum. Never fails; the `Result` mirrors the operation interface.
pub fn calculate_lock_duration(
    sol_amount: u64,
    timestamp: i64,
    slot: u64,
    slot_hashes_data: &[u8],
) -> (r: Result<i64, ErrorCode>)
    ensures
        r == Ok::<i64, ErrorCode>(
            spec_lock_duration(sol_amount, timestamp, slot, slot_hashes_data@) as i64,
        ),
        spec_tier_min(sol_amount)
            <= spec_lock_duration(sol_amount, timestamp, slot, slot_hashes_data@)
            < spec_tier_max(sol_amount),
{
    let (min, max): (i64, i64) = if sol_amount < TIER1_THRESHOLD {
        (TIER1_MIN, TIER1_MAX)
    } else if sol_amount < TIER2_THRESHOLD {
        (TIER2_MIN, TIER2_MAX)
    } else if sol_amount < TIER3_THRESHOLD {
        (TIER3_MIN, TIER3_MAX)
    } else {
        (TIER4_MIN, TIER4_MAX)
    };

    let range: i64 = max - min;

    let hash_seed: u64 = if slot_hashes_data.len() >= 8 {
        le8(slot_hashes_data)
    } else {
        as_unsigned(timestamp)
    };

    let combined: u64 = hash_seed.wrapping_add(as_unsigned(timestamp)).wrapping_add(slot);
    let offset: i64 = (combined % (range as u64)) as i64;

    proof {
        lemma_mod_bound(combined as int, range as int);
    }
    Ok(min + offset)
}

} // verus!
