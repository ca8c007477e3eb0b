//! How the program picks its moves, and who moves first.

use vstd::prelude::*;
use crate::types::{DifficultyLevel, GameState, Player};
use crate::random::get_random_u32;

verus! {

/// The easy program's move: a number between 1 and `max`, drawn from `random`.
pub open spec fn easy_move(max: u32, random: u32) -> int {
    random % max + 1
}

/// The hard program's move, the winning strategy of the game: everything
/// that is left when that is within reach; otherwise the number that leaves
/// a multiple of `max + 1`, so that the user can never clear the pile and
/// the program can restore a multiple after every user move; when the pile
/// already is such a multiple no move wins, and the program takes the
/// maximum.
pub open spec fn hard_move(remaining: u32, max: u32) -> int {
    if remaining <= max {
        remaining as int
    } else if remaining as int % (max + 1) != 0 {
        remaining as int % (max + 1)
    } else {
        max as int
    }
}

/// The number of pebbles the program removes in state `s`, where `random`
/// is the random number it drew (unused at the hard level).
pub open spec fn program_move(s: GameState, random: u32) -> int {
    match s.difficulty {
        DifficultyLevel::Easy => easy_move(s.max_pebbles_per_turn, random),
        DifficultyLevel::Hard => hard_move(s.pebbles_remaining, s.max_pebbles_per_turn),
    }
}

/// The program can choose a move in `s`: the easy level draws a number
/// below the maximum, which must not be 0.
pub open spec fn program_move_defined(s: GameState) -> bool {
    s.difficulty == DifficultyLevel::Easy ==> s.max_pebbles_per_turn > 0
}

/// Who moves first, given a random number.
pub open spec fn first_player_for(random: u32) -> Player {
    if random % 2 == 0 {
        Player::User
    } else {
        Player::Program
    }
}

/// The number of pebbles the program removes in `game_state`, given the
/// random number `random` (used at the easy level only).
pub fn pebbles_to_remove(game_state: &GameState, random: u32) -> (n: u32)
    requires
        program_move_defined(*game_state),
    ensures
        n == program_move(*game_state, random),
{
    match game_state.difficulty {
        DifficultyLevel::Easy => (random % game_state.max_pebbles_per_turn) + 1,
        DifficultyLevel::Hard => {
            if game_state.pebbles_remaining <= game_state.max_pebbles_per_turn {
                game_state.pebbles_remaining
            } else if game_state.pebbles_remaining % (game_state.max_pebbles_per_turn + 1) != 0 {
                game_state.pebbles_remaining % (game_state.max_pebbles_per_turn + 1)
            } else {
                game_state.max_pebbles_per_turn
            }
        },
    }
}

/// The number of pebbles the program removes in `game_state`. At the easy
/// level it draws a random number from the runtime; at the hard level the
/// move is fixed by the state. The state is left unchanged.
pub fn get_pebbles_to_remove(game_state: &mut GameState) -> (n: u32)
    requires
        program_move_defined(*old(game_state)),
    ensures
        *final(game_state) == *old(game_state),
        exists|random: u32| n == program_move(*old(game_state), random),
        old(game_state).difficulty == DifficultyLevel::Hard ==> n == hard_move(
            old(game_state).pebbles_remaining,
            old(game_state).max_pebbles_per_turn,
        ),
{
    let random: u32 = match game_state.difficulty {
        DifficultyLevel::Easy => get_random_u32(),
        DifficultyLevel::Hard => 0,
    };
    let n = pebbles_to_remove(game_state, random);
    assert(n == program_move(*game_state, random));
    n
}

/// Who moves first, given the random number `random`: the user when it is
/// even, the program when it is odd.
pub fn first_player_from(random: u32) -> (p: Player)
    ensures
        p == first_player_for(random),
{
    match random % 2 {
        0 => Player::User,
        _ => Player::Program,
    }
}

/// Chooses at random who moves first: the user when the runtime's random
/// number is even, the program when it is odd (see `first_player_from`).
/// Either player may come back.
pub fn init_first_player() -> (p: Player) {
    let random = get_random_u32();
    first_player_from(random)
}

} // verus!
