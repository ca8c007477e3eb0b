//! The values the game is played with.

use vstd::prelude::*;

verus! {

/// How the program chooses its moves.
#[derive(Debug, Clone, Copy, PartialEq, Eq, Structural)]
pub enum DifficultyLevel {
    /// The program removes a random number of pebbles.
    Easy,
    /// The program follows a fixed strategy.
    Hard,
}

/// One of the two players.
#[derive(Debug, Clone, Copy, PartialEq, Eq, Structural)]
pub enum Player {
    User,
    Program,
}

/// The state of a game.
#[derive(Debug, Clone, Copy, PartialEq, Eq, Structural)]
pub struct GameState {
    pub pebbles_count: u32,
    pub max_pebbles_per_turn: u32,
    pub pebbles_remaining: u32,
    pub difficulty: DifficultyLevel,
    pub first_player: Player,
    pub winner: Option<Player>,
}

/// The parameters a game is started with.
#[derive(Debug, Clone, Copy, PartialEq, Eq, Structural)]
pub struct PebblesInit {
    pub difficulty: DifficultyLevel,
    pub pebbles_count: u32,
    pub max_pebbles_per_turn: u32,
}

/// What the user asks of the game.
#[derive(Debug, Clone, Copy, PartialEq, Eq, Structural)]
pub enum PebblesAction {
    /// The user removes the given number of pebbles.
    Turn(u32),
    /// The user concedes.
    GiveUp,
    /// The game starts over with new parameters.
    Restart { difficulty: DifficultyLevel, pebbles_count: u32, max_pebbles_per_turn: u32 },
}

/// What the game tells the user after a move.
#[derive(Debug, Clone, Copy, PartialEq, Eq, Structural)]
pub enum PebblesEvent {
    /// The program has moved; this many pebbles are left.
    CounterTurn(u32),
    /// The game is over and the given player won.
    Won(Player),
}

/// The message the game answers an action with.
#[derive(Debug, Clone, Copy, PartialEq, Eq, Structural)]
pub enum Reply {
    /// An event of the game.
    Event(PebblesEvent),
    /// The parameters of a game that was just restarted.
    Restarted(PebblesInit),
}

/// The answer to an action, and whether execution ends after it is sent.
#[derive(Debug, Clone, Copy, PartialEq, Eq, Structural)]
pub struct Response {
    pub reply: Reply,
    pub leave: bool,
}

impl Default for GameState {
    /// The state a game holds before it was ever started.
    fn default() -> (s: GameState)
        ensures
            s == (GameState {
                pebbles_count: 0,
                max_pebbles_per_turn: 0,
                pebbles_remaining: 0,
                difficulty: DifficultyLevel::Easy,
                first_player: Player::User,
                winner: None,
            }),
    {
        GameState {
            pebbles_count: 0,
            max_pebbles_per_turn: 0,
            pebbles_remaining: 0,
            difficulty: DifficultyLevel::Easy,
            first_player: Player::User,
            winner: None,
        }
    }
}

} // verus!
