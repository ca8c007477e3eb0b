//! The pebbles game: two players, the user and the program, take turns
//! removing between one and a fixed maximum number of pebbles from a pile;
//! whoever takes the last pebbles wins.
//!
//! The library holds the game's rules and the program's strategies as
//! verified functions over plain values; what depends on the Gear runtime
//! (its random seed and the current message id) is reached through a few
//! trusted wrappers in `random`.


pub mod types;
pub mod random;
pub mod strategy;
pub mod game;
pub mod laws;


pub use types::{
    DifficultyLevel, GameState, PebblesAction, PebblesEvent, PebblesInit, Player, Reply, Response,
};
pub use random::{get_random_u32, u32_from_hash};
pub use strategy::{first_player_from, get_pebbles_to_remove, init_first_player, pebbles_to_remove};
pub use game::{
    can_handle, check_difficulty_level, check_pebbles_input, handle_action, handle_action_with, play_turn,
    restart_game, start_game,
};
