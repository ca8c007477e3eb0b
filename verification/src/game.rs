//! The rules of the game: checking a game's parameters, starting a game,
//! and answering the user's actions.

use vstd::prelude::*;
use crate::types::{
    DifficultyLevel, GameState, PebblesAction, PebblesEvent, PebblesInit, Player, Reply, Response,
};
use crate::random::get_random_u32;
use crate::strategy::{init_first_player, pebbles_to_remove, program_move, program_move_defined};

verus! {

// ---------------------------------------------------------------------------
// The model
// ---------------------------------------------------------------------------

/// A game can be played with these parameters: at least one pebble, and a
/// maximum per turn that is at least one and not greater than the number of
/// pebbles.
pub open spec fn valid_input(pebbles_count: u32, max_pebbles_per_turn: u32) -> bool {
    &&& pebbles_count >= 1
    &&& max_pebbles_per_turn >= 1
    &&& max_pebbles_per_turn <= pebbles_count
}

/// The pile before anybody moved.
pub open spec fn fresh_state(
    difficulty: DifficultyLevel,
    pebbles_count: u32,
    max_pebbles_per_turn: u32,
    first: Player,
) -> GameState {
    GameState {
        difficulty,
        pebbles_count,
        max_pebbles_per_turn,
        pebbles_remaining: pebbles_count,
        first_player: first,
        winner: None,
    }
}

/// The state a new game starts in: when the program moves first it has
/// already made its move, drawing `random`, and has won if that move took
/// every pebble.
pub open spec fn start_state(
    difficulty: DifficultyLevel,
    pebbles_count: u32,
    max_pebbles_per_turn: u32,
    first: Player,
    random: u32,
) -> GameState {
    let s = fresh_state(difficulty, pebbles_count, max_pebbles_per_turn, first);
    if first == Player::Program {
        let rest = take(pebbles_count, program_move(s, random));
        GameState {
            pebbles_remaining: rest,
            winner: if rest == 0 {
                Some(Player::Program)
            } else {
                None
            },
            ..s
        }
    } else {
        s
    }
}

/// What is left of a pile of `remaining` after `n` are taken, never below 0.
pub open spec fn take(remaining: u32, n: int) -> u32 {
    if n < remaining {
        (remaining - n) as u32
    } else {
        0
    }
}

/// The number of pebbles the user's request for `x` is cut down to.
pub open spec fn user_take(s: GameState, x: u32) -> u32 {
    if x > s.max_pebbles_per_turn {
        s.max_pebbles_per_turn
    } else {
        x
    }
}

/// The state after the user's move of `x` pebbles.
pub open spec fn after_user(s: GameState, x: u32) -> GameState {
    GameState { pebbles_remaining: take(s.pebbles_remaining, user_take(s, x) as int), ..s }
}

/// The answer that announces `winner`.
pub open spec fn won(winner: Player, leave: bool) -> Response {
    Response { reply: Reply::Event(PebblesEvent::Won(winner)), leave }
}

/// A game is over once its pile is empty and a winner is recorded. (A game
/// given up with pebbles left is not over: its turns are played on.)
pub open spec fn finished(s: GameState) -> bool {
    s.pebbles_remaining == 0 && s.winner is Some
}

/// A turn of the user asking for `x` pebbles, followed by the program's
/// answer drawn with `random`: the new state and the answer sent. A game
/// that is over stays as it is, and the answer names its winner.
pub open spec fn turn(s: GameState, x: u32, random: u32) -> (GameState, Response) {
    if finished(s) {
        (s, won(s.winner.unwrap(), true))
    } else {
        let s1 = after_user(s, x);
        if s1.pebbles_remaining == 0 {
            (GameState { winner: Some(Player::User), ..s1 }, won(Player::User, true))
        } else {
            let rest = take(s1.pebbles_remaining, program_move(s1, random));
            let s2 = GameState { pebbles_remaining: rest, ..s1 };
            if rest == 0 {
                (GameState { winner: Some(Player::Program), ..s2 }, won(Player::Program, true))
            } else {
                (
                    s2,
                    Response { reply: Reply::Event(PebblesEvent::CounterTurn(rest)), leave: false },
                )
            }
        }
    }
}

/// A turn asking for `x` pebbles can be played in `s`: the game is over,
/// the user empties the pile, or the program can answer.
pub open spec fn turn_defined(s: GameState, x: u32) -> bool {
    let s1 = after_user(s, x);
    finished(s) || s1.pebbles_remaining == 0 || program_move_defined(s1)
}

/// The program draws a random number in this turn: the game is not over,
/// the user leaves pebbles, and the program plays the easy level.
pub open spec fn turn_draws(s: GameState, x: u32) -> bool {
    &&& !finished(s)
    &&& after_user(s, x).pebbles_remaining > 0
    &&& s.difficulty == DifficultyLevel::Easy
}

/// Giving up: the program wins, unless the game is over, when its winner
/// stays.
pub open spec fn give_up(s: GameState) -> (GameState, Response) {
    if finished(s) {
        (s, won(s.winner.unwrap(), false))
    } else {
        (GameState { winner: Some(Player::Program), ..s }, won(Player::Program, false))
    }
}

/// The new state and the answer for `action` in `s`, where `first` would
/// move first in a restarted game and `random` is the program's draw.
pub open spec fn handle(s: GameState, action: PebblesAction, first: Player, random: u32) -> (
    GameState,
    Response,
) {
    match action {
        PebblesAction::GiveUp => give_up(s),
        PebblesAction::Restart { difficulty, pebbles_count, max_pebbles_per_turn } => (
            start_state(difficulty, pebbles_count, max_pebbles_per_turn, first, random),
            Response {
                reply: Reply::Restarted(
                    PebblesInit { difficulty, pebbles_count, max_pebbles_per_turn },
                ),
                leave: false,
            },
        ),
        PebblesAction::Turn(x) => turn(s, x, random),
    }
}

/// `action` can be answered in `s`: a restart needs valid parameters, a
/// turn needs a program that can answer.
pub open spec fn handle_defined(s: GameState, action: PebblesAction) -> bool {
    match action {
        PebblesAction::GiveUp => true,
        PebblesAction::Restart { difficulty, pebbles_count, max_pebbles_per_turn } => valid_input(
            pebbles_count,
            max_pebbles_per_turn,
        ),
        PebblesAction::Turn(x) => turn_defined(s, x),
    }
}

// ---------------------------------------------------------------------------
// Checking the parameters
// ---------------------------------------------------------------------------

/// Whether `difficulty` is one of the known levels; every value of the type
/// is.
pub fn check_difficulty_level(difficulty: DifficultyLevel) -> (ok: bool)
    ensures
        ok == (difficulty == DifficultyLevel::Easy || difficulty == DifficultyLevel::Hard),
        ok,
{
    if difficulty != DifficultyLevel::Easy && difficulty != DifficultyLevel::Hard {
        return false;
    }
    true
}

/// Whether a game can be played with `pebbles_count` pebbles and at most
/// `max_pebbles_per_turn` taken per turn: both positive, and the maximum
/// not greater than the number of pebbles.
pub fn check_pebbles_input(pebbles_count: u32, max_pebbles_per_turn: u32) -> (ok: bool)
    ensures
        ok == valid_input(pebbles_count, max_pebbles_per_turn),
{
    if pebbles_count < 1 || max_pebbles_per_turn < 1 || max_pebbles_per_turn > pebbles_count {
        return false;
    }
    true
}

/// Whether `action` can be answered in `state` whatever the random draws
/// are: a restart needs parameters `check_pebbles_input` accepts, and a
/// turn needs a program that can answer unless the game is over or the
/// user empties the pile.
pub fn can_handle(state: &GameState, action: &PebblesAction) -> (ok: bool)
    ensures
        ok == handle_defined(*state, *action),
{
    match *action {
        PebblesAction::GiveUp => true,
        PebblesAction::Restart { difficulty, pebbles_count, max_pebbles_per_turn } => {
            check_pebbles_input(pebbles_count, max_pebbles_per_turn)
        },
        PebblesAction::Turn(x) => {
            if state.pebbles_remaining == 0 && state.winner.is_some() {
                return true;
            }
            let mut s1 = *state;
            if user_turn(&mut s1, x) {
                true
            } else {
                match s1.difficulty {
                    DifficultyLevel::Easy => s1.max_pebbles_per_turn > 0,
                    DifficultyLevel::Hard => true,
                }
            }
        },
    }
}

// ---------------------------------------------------------------------------
// Starting a game
// ---------------------------------------------------------------------------

/// A new game in which `first` moves first; when that is the program, it
/// makes its opening move with the random number `random`, and wins if that
/// move takes every pebble.
pub fn start_game(
    difficulty: DifficultyLevel,
    pebbles_count: u32,
    max_pebbles_per_turn: u32,
    first: Player,
    random: u32,
) -> (s: GameState)
    requires
        valid_input(pebbles_count, max_pebbles_per_turn),
    ensures
        s == start_state(difficulty, pebbles_count, max_pebbles_per_turn, first, random),
{
    let mut pebbles_game = GameState {
        difficulty,
        pebbles_count,
        max_pebbles_per_turn,
        pebbles_remaining: pebbles_count,
        first_player: first,
        winner: None,
    };
    if first == Player::Program {
        let program_turn = pebbles_to_remove(&pebbles_game, random);
        if program_turn < pebbles_game.pebbles_remaining {
            pebbles_game.pebbles_remaining = pebbles_game.pebbles_remaining - program_turn;
        } else {
            pebbles_game.pebbles_remaining = 0;
            pebbles_game.winner = Some(Player::Program);
        }
    }
    pebbles_game
}

/// The random choices of a new game: who moves first, and the number the
/// program draws for its opening move (only when it moves first at the
/// easy level; 0 otherwise).
fn opening_draw(difficulty: DifficultyLevel) -> (Player, u32) {
    let first = init_first_player();
    let random: u32 = if first == Player::Program && difficulty == DifficultyLevel::Easy {
        get_random_u32()
    } else {
        0
    };
    (first, random)
}

/// A new game with the given parameters; who moves first is chosen at
/// random, and when it is the program it makes its opening move.
pub fn restart_game(
    difficulty: DifficultyLevel,
    pebbles_count: u32,
    max_pebbles_per_turn: u32,
) -> (s: GameState)
    requires
        valid_input(pebbles_count, max_pebbles_per_turn),
    ensures
        exists|first: Player, random: u32|
            s == start_state(difficulty, pebbles_count, max_pebbles_per_turn, first, random),
{
    let (first, random) = opening_draw(difficulty);
    start_game(difficulty, pebbles_count, max_pebbles_per_turn, first, random)
}

// ---------------------------------------------------------------------------
// Answering the user
// ---------------------------------------------------------------------------

/// The user's move: at most the maximum per turn is taken, and the pile
/// does not go below zero. Returns whether the pile is now empty.
fn user_turn(state: &mut GameState, x: u32) -> (empty: bool)
    ensures
        *final(state) == after_user(*old(state), x),
        empty == (final(state).pebbles_remaining == 0),
{
    let mut x = x;
    if x > state.max_pebbles_per_turn {
        x = state.max_pebbles_per_turn;
    }
    if x < state.pebbles_remaining {
        state.pebbles_remaining = state.pebbles_remaining - x;
    } else {
        state.pebbles_remaining = 0;
    }
    state.pebbles_remaining == 0
}

/// The end of a turn once the program has chosen to remove `n` pebbles.
fn program_turn(state: &mut GameState, n: u32) -> (r: Response)
    ensures
        ({
            let rest = take(old(state).pebbles_remaining, n as int);
            let s2 = GameState { pebbles_remaining: rest, ..*old(state) };
            if rest == 0 {
                *final(state) == (GameState { winner: Some(Player::Program), ..s2 }) && r == won(
                    Player::Program,
                    true,
                )
            } else {
                *final(state) == s2 && r == (Response {
                    reply: Reply::Event(PebblesEvent::CounterTurn(rest)),
                    leave: false,
                })
            }
        }),
{
    if n < state.pebbles_remaining {
        state.pebbles_remaining = state.pebbles_remaining - n;
    } else {
        state.pebbles_remaining = 0;
    }
    if state.pebbles_remaining == 0 {
        state.winner = Some(Player::Program);
        Response { reply: Reply::Event(PebblesEvent::Won(Player::Program)), leave: true }
    } else {
        Response {
            reply: Reply::Event(PebblesEvent::CounterTurn(state.pebbles_remaining)),
            leave: false,
        }
    }
}

/// A turn: the user asks for `x` pebbles; unless that empties the pile, the
/// program answers with its move, drawn with `random`. A game that already
/// is over stays as it is and answers with its winner.
pub fn play_turn(state: &mut GameState, x: u32, random: u32) -> (r: Response)
    requires
        turn_defined(*old(state), x),
    ensures
        (*final(state), r) == turn(*old(state), x, random),
{
    if state.pebbles_remaining == 0 {
        if let Some(w) = state.winner {
            return Response { reply: Reply::Event(PebblesEvent::Won(w)), leave: true };
        }
    }
    if user_turn(state, x) {
        state.winner = Some(Player::User);
        return Response { reply: Reply::Event(PebblesEvent::Won(Player::User)), leave: true };
    }
    let n = pebbles_to_remove(state, random);
    program_turn(state, n)
}

/// Answers `action` in `state`, where a restarted game would have `first`
/// move first and `random` is the program's draw.
pub fn handle_action_with(
    state: &mut GameState,
    action: PebblesAction,
    first: Player,
    random: u32,
) -> (r: Response)
    requires
        handle_defined(*old(state), action),
    ensures
        (*final(state), r) == handle(*old(state), action, first, random),
{
    match action {
        PebblesAction::GiveUp => {
            if state.pebbles_remaining == 0 {
                if let Some(w) = state.winner {
                    return Response { reply: Reply::Event(PebblesEvent::Won(w)), leave: false };
                }
            }
            state.winner = Some(Player::Program);
            Response { reply: Reply::Event(PebblesEvent::Won(Player::Program)), leave: false }
        },
        PebblesAction::Restart { difficulty, pebbles_count, max_pebbles_per_turn } => {
            *state = start_game(difficulty, pebbles_count, max_pebbles_per_turn, first, random);
            Response {
                reply: Reply::Restarted(
                    PebblesInit { difficulty, pebbles_count, max_pebbles_per_turn },
                ),
                leave: false,
            }
        },
        PebblesAction::Turn(x) => play_turn(state, x, random),
    }
}

/// Whether the program draws a random number in a turn asking for `x`.
fn turn_needs_draw(state: &GameState, x: u32) -> (b: bool)
    ensures
        b == turn_draws(*state, x),
{
    if (state.pebbles_remaining == 0 && state.winner.is_some()) || state.difficulty
        != DifficultyLevel::Easy {
        return false;
    }
    let mut s1 = *state;
    !user_turn(&mut s1, x)
}

/// Answers `action` in `state`. A restart chooses who moves first at
/// random, and the easy program draws its moves from the runtime; the
/// outcome is the one of `handle` for some such choice.
pub fn handle_action(state: &mut GameState, action: PebblesAction) -> (r: Response)
    requires
        handle_defined(*old(state), action),
    ensures
        exists|first: Player, random: u32|
            (*final(state), r) == handle(*old(state), action, first, random),
{
    let (first, random) = match action {
        PebblesAction::Restart { difficulty, .. } => opening_draw(difficulty),
        PebblesAction::Turn(x) => {
            let random: u32 = if turn_needs_draw(state, x) {
                get_random_u32()
            } else {
                0
            };
            (Player::User, random)
        },
        PebblesAction::GiveUp => (Player::User, 0),
    };
    handle_action_with(state, action, first, random)
}

} // verus!
