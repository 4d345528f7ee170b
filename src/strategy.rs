//! The automated player's move policies.
use vstd::prelude::*;

use crate::io::{DifficultyLevel, Player};

verus! {

/// The smaller of two integers.
pub open spec fn min_int(a: int, b: int) -> int {
    if a <= b { a } else { b }
}

/// The opening player for an entropy word: even lets the user open.
pub open spec fn first_player_for(random: u32) -> Player {
    if random % 2 == 0 { Player::User } else { Player::Program }
}

/// A position is lost for the player to move exactly when the pile is a
/// multiple of `max + 1`.
pub open spec fn is_losing(remaining: int, max: int) -> bool {
    remaining % (max + 1) == 0
}

/// The easy policy: a move drawn from `1..=min(max, remaining)`.
pub open spec fn easy_move(remaining: int, max: int, random: int) -> int {
    random % min_int(max, remaining) + 1
}

/// The hard policy: take the whole pile when it can be taken, else move to
/// the next lower multiple of `max + 1`, else (a lost position) draw a move.
pub open spec fn hard_move(remaining: int, max: int, random: int) -> int {
    if remaining <= max {
        remaining
    } else if !is_losing(remaining, max) {
        remaining % (max + 1)
    } else {
        random % max + 1
    }
}

/// The move the automated player makes under a policy.
pub open spec fn move_for(remaining: int, max: int, difficulty: DifficultyLevel, random: int) -> int {
    match difficulty {
        DifficultyLevel::Easy => easy_move(remaining, max, random),
        DifficultyLevel::Hard => hard_move(remaining, max, random),
    }
}

/// The little-endian integer of four bytes.
pub open spec fn le_word(b0: u8, b1: u8, b2: u8, b3: u8) -> int {
    b0 + 256 * b1 + 65536 * b2 + 16777216 * b3
}

/// Chooses the opening player from an entropy word.
pub fn draw_first_player(random: u32) -> (r: Player)
    ensures
        r == first_player_for(random),
{
    if random % 2 == 0 {
        Player::User
    } else {
        Player::Program
    }
}

/// Reads an entropy word from the first four bytes of a random hash,
/// least significant byte first.
pub fn random_u32_from_hash(hash: &[u8]) -> (r: u32)
    requires
        hash@.len() >= 4,
    ensures
        r as int == le_word(hash@[0], hash@[1], hash@[2], hash@[3]),
{
    let b0 = hash[0] as u32;
    let b1 = hash[1] as u32;
    let b2 = hash[2] as u32;
    let b3 = hash[3] as u32;
    b0 + 256 * b1 + 65536 * b2 + 16777216 * b3
}

/// The hard policy's move: the winning one whenever the position allows it.
pub fn find_best_move(pebbles_remaining: u32, max_pebbles_per_turn: u32, random: u32) -> (r: u32)
    requires
        pebbles_remaining > 0,
        max_pebbles_per_turn > 0,
    ensures
        r as int == hard_move(pebbles_remaining as int, max_pebbles_per_turn as int, random as int),
        1 <= r <= min_int(pebbles_remaining as int, max_pebbles_per_turn as int),
{
    if pebbles_remaining <= max_pebbles_per_turn {
        return pebbles_remaining;
    }
    let winning = pebbles_remaining % (max_pebbles_per_turn + 1);
    if winning != 0 {
        winning
    } else {
        random % max_pebbles_per_turn + 1
    }
}

/// The automated player's move under the given policy; the easy draw is
/// kept within the pile, so that no move ever overshoots it.
pub fn choose_move(
    pebbles_remaining: u32,
    max_pebbles_per_turn: u32,
    difficulty: DifficultyLevel,
    random: u32,
) -> (r: u32)
    requires
        pebbles_remaining > 0,
        max_pebbles_per_turn > 0,
    ensures
        r as int == move_for(
            pebbles_remaining as int,
            max_pebbles_per_turn as int,
            difficulty,
            random as int,
        ),
        1 <= r <= min_int(pebbles_remaining as int, max_pebbles_per_turn as int),
{
    match difficulty {
        DifficultyLevel::Easy => {
            let bound = if max_pebbles_per_turn <= pebbles_remaining {
                max_pebbles_per_turn
            } else {
                pebbles_remaining
            };
            random % bound + 1
        },
        DifficultyLevel::Hard => find_best_move(pebbles_remaining, max_pebbles_per_turn, random),
    }
}

/// From a position that is not lost, the hard policy's move is
/// `remaining % (max + 1)`: a legal move that leaves the opponent a
/// multiple of `max + 1`, a lost position.
pub proof fn lemma_hard_move_wins(remaining: int, max: int, random: int)
    requires
        remaining > 0,
        max >= 1,
        !is_losing(remaining, max),
    ensures
        hard_move(remaining, max, random) == remaining % (max + 1),
        1 <= remaining % (max + 1) <= max,
        is_losing(remaining - remaining % (max + 1), max),
{
    vstd::arithmetic::div_mod::lemma_fundamental_div_mod(remaining, max + 1);
    vstd::arithmetic::div_mod::lemma_mod_multiples_basic(remaining / (max + 1), max + 1);
    if remaining <= max {
        vstd::arithmetic::div_mod::lemma_small_mod(remaining as nat, (max + 1) as nat);
    }
}

} // verus!
