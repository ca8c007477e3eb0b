use pebbles_game::{
    check_difficulty_level, check_pebbles_input, first_player_from, handle_action_with,
    start_game, DifficultyLevel, GameState, PebblesAction, PebblesEvent, Player, Reply, Response,
};
use std::time::{SystemTime, UNIX_EPOCH};

const MAX_NUMBER_OF_TURNS: u32 = 21;
const MAX_PEBBLES_PER_TURN: u32 = 2;
const PEBBLES_COUNT: u32 = 15;
const DIFFICULTY: DifficultyLevel = DifficultyLevel::Easy;

fn nanos() -> u32 {
    SystemTime::now().duration_since(UNIX_EPOCH).expect("REASON").subsec_nanos()
}

/// A game driven the way the runtime drives it: an init message, then
/// actions, each answered with fresh random numbers.
struct Session {
    state: GameState,
}

impl Session {
    fn init(difficulty: DifficultyLevel, pebbles_count: u32, max_pebbles_per_turn: u32) -> Session {
        assert!(check_pebbles_input(pebbles_count, max_pebbles_per_turn));
        let random = nanos();
        let first = first_player_from(random);
        Session { state: start_game(difficulty, pebbles_count, max_pebbles_per_turn, first, random) }
    }

    fn send(&mut self, action: PebblesAction) -> Response {
        let random = nanos();
        handle_action_with(&mut self.state, action, first_player_from(random), random)
    }

    fn read_state(&self) -> GameState {
        self.state
    }
}

#[test]
fn test_check_pebbles_input() {
    let res: bool = check_pebbles_input(0, 0);
    assert!(res == false);
    let res: bool = check_pebbles_input(15, 16);
    assert!(res == false);
    let res: bool = check_pebbles_input(15, 2);
    assert!(res == true);
}

#[test]
fn test_check_difficulty_level() {
    let res: bool = check_difficulty_level(DifficultyLevel::Easy);
    assert!(res == true);
    let res: bool = check_difficulty_level(DifficultyLevel::Hard);
    assert!(res == true);
}

#[test]
fn success_restart_game() {
    let mut game = Session::init(DIFFICULTY, PEBBLES_COUNT, MAX_PEBBLES_PER_TURN);
    let _state: GameState = game.read_state();
    for i in 1..MAX_NUMBER_OF_TURNS {
        if i == 3 {
            let _res = game.send(PebblesAction::Restart {
                difficulty: DIFFICULTY,
                pebbles_count: PEBBLES_COUNT,
                max_pebbles_per_turn: MAX_PEBBLES_PER_TURN,
            });
            break;
        }
        let user_choice = (nanos() % MAX_PEBBLES_PER_TURN) + 1;
        let _res = game.send(PebblesAction::Turn(user_choice));
        let state: GameState = game.read_state();
        if state.pebbles_remaining == 0 {
            break;
        }
    }
    let user_choice = (nanos() % MAX_PEBBLES_PER_TURN) + 1;
    let _res = game.send(PebblesAction::Turn(user_choice));
    let _res = game.send(PebblesAction::Turn(user_choice));
    let state: GameState = game.read_state();
    let pebbles_remaining: u32 = state.pebbles_remaining;
    let winner: Option<Player> = state.winner;
    assert_ne!(pebbles_remaining, 0);
    assert_eq!(winner, None);
}

#[test]
fn success_giveup() {
    let mut game = Session::init(DIFFICULTY, PEBBLES_COUNT, MAX_PEBBLES_PER_TURN);
    for i in 1..MAX_NUMBER_OF_TURNS {
        if i == 3 {
            let res = game.send(PebblesAction::GiveUp);
            assert!(res.reply == Reply::Event(PebblesEvent::Won(Player::Program)));
            break;
        }
        let user_choice = (nanos() % MAX_PEBBLES_PER_TURN) + 1;
        let _res = game.send(PebblesAction::Turn(user_choice));
        let state: GameState = game.read_state();
        if state.pebbles_remaining == 0 {
            break;
        }
    }
    let state: GameState = game.read_state();
    let pebbles_remaining: u32 = state.pebbles_remaining;
    let winner: Player = state.winner.expect("REASON");
    assert_ne!(pebbles_remaining, 0);
    assert_eq!(winner, Player::Program);
}

#[test]
fn success_run_game() {
    let mut game = Session::init(DIFFICULTY, PEBBLES_COUNT, MAX_PEBBLES_PER_TURN);
    for _i in 1..MAX_NUMBER_OF_TURNS {
        let user_choice = (nanos() % MAX_PEBBLES_PER_TURN) + 1;
        let _res = game.send(PebblesAction::Turn(user_choice));
        let state: GameState = game.read_state();
        if state.pebbles_remaining == 0 {
            break;
        }
    }
    let state: GameState = game.read_state();
    let pebbles_remaining: u32 = state.pebbles_remaining;
    let winner: Player = state.winner.expect("REASON");
    assert_eq!(pebbles_remaining, 0);
    assert!(winner == Player::Program || winner == Player::User);
}
