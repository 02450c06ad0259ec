//! The pseudo-random selector both engines draw from. It is derived from
//! chain-observable, non-secret values (timestamp, slot height, pot size,
//! participant count) and is therefore predictable by construction: it is a
//! tie-breaker, not a cryptographic source.

use vstd::prelude::*;

verus! {

/// The bit pattern of a signed timestamp read as an unsigned word.
pub open spec fn i64_bits_spec(x: i64) -> u64 {
    if x >= 0 {
        x as u64
    } else {
        (x + 0x1_0000_0000_0000_0000) as u64
    }
}

/// The round seed: `timestamp * slot + pot + player_count`, wrapping on
/// overflow at 64 bits.
pub open spec fn round_seed_spec(now: i64, slot: u64, pot: u64, count: u8) -> u64 {
    vstd::wrapping::u64_specs::wrapping_add(
        vstd::wrapping::u64_specs::wrapping_add(
            vstd::wrapping::u64_specs::wrapping_mul(i64_bits_spec(now), slot),
            pot,
        ),
        count as u64,
    )
}

/// Whether the first of the two match participants wins the flip for a
/// given slot height: even slots favour the first player.
pub open spec fn player1_wins(slot: u64) -> bool {
    slot % 2 == 0
}

fn i64_bits(x: i64) -> (r: u64)
    ensures
        r == i64_bits_spec(x),
{
    if x >= 0 {
        x as u64
    } else {
        ((x as i128) + 0x1_0000_0000_0000_0000i128) as u64
    }
}

/// Derive the seed stored with a round when its drawing begins.
pub fn round_seed(now: i64, slot: u64, pot: u64, count: u8) -> (r: u64)
    ensures
        r == round_seed_spec(now, slot, pot, count),
{
    i64_bits(now).wrapping_mul(slot).wrapping_add(pot).wrapping_add(count as u64)
}

/// The 50/50 draw for the two-player match.
pub fn coin_flip(slot: u64) -> (r: bool)
    ensures
        r == player1_wins(slot),
{
    slot % 2 == 0
}

} // verus!
