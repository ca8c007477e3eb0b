use pebbles_game::{
    can_handle,
    check_pebbles_input, first_player_from, get_pebbles_to_remove, handle_action,
    handle_action_with, pebbles_to_remove, play_turn, start_game, u32_from_hash,
    DifficultyLevel, GameState, PebblesAction, PebblesEvent, PebblesInit, Player, Reply, Response,
};

fn state(difficulty: DifficultyLevel, count: u32, max: u32, remaining: u32) -> GameState {
    GameState {
        pebbles_count: count,
        max_pebbles_per_turn: max,
        pebbles_remaining: remaining,
        difficulty,
        first_player: Player::User,
        winner: None,
    }
}

fn counter(n: u32) -> Response {
    Response { reply: Reply::Event(PebblesEvent::CounterTurn(n)), leave: false }
}

fn won(p: Player, leave: bool) -> Response {
    Response { reply: Reply::Event(PebblesEvent::Won(p)), leave }
}

#[test]
fn hash_bytes_read_little_endian() {
    let mut hash = [0u8; 32];
    hash[0] = 1;
    hash[1] = 2;
    hash[2] = 3;
    hash[3] = 4;
    hash[4] = 99;
    assert_eq!(u32_from_hash(&hash), 0x0403_0201);
    assert_eq!(u32_from_hash(&[0xff; 32]), u32::MAX);
    assert_eq!(u32_from_hash(&[0; 32]), 0);
}

#[test]
fn first_player_follows_parity() {
    assert_eq!(first_player_from(0), Player::User);
    assert_eq!(first_player_from(1), Player::Program);
    assert_eq!(first_player_from(10), Player::User);
    assert_eq!(first_player_from(u32::MAX), Player::Program);
}

#[test]
fn pebbles_input_edges() {
    assert!(!check_pebbles_input(1, 0));
    assert!(check_pebbles_input(1, 1));
    assert!(check_pebbles_input(15, 15));
    assert!(!check_pebbles_input(15, 16));
    assert!(!check_pebbles_input(0, 1));
    assert!(check_pebbles_input(2, 1));
    assert!(check_pebbles_input(u32::MAX, u32::MAX));
}

#[test]
fn easy_move_is_drawn_between_one_and_max() {
    let s = state(DifficultyLevel::Easy, 15, 3, 10);
    assert_eq!(pebbles_to_remove(&s, 7), 2);
    assert_eq!(pebbles_to_remove(&s, 0), 1);
    assert_eq!(pebbles_to_remove(&s, 2), 3);
    for r in 0..100u32 {
        let n = pebbles_to_remove(&s, r);
        assert!(1 <= n && n <= 3);
    }
}

#[test]
fn hard_move_strategy() {
    assert_eq!(pebbles_to_remove(&state(DifficultyLevel::Hard, 15, 3, 3), 0), 3);
    assert_eq!(pebbles_to_remove(&state(DifficultyLevel::Hard, 15, 3, 2), 0), 2);
    assert_eq!(pebbles_to_remove(&state(DifficultyLevel::Hard, 15, 3, 10), 0), 2);
    assert_eq!(pebbles_to_remove(&state(DifficultyLevel::Hard, 15, 3, 5), 0), 1);
    assert_eq!(pebbles_to_remove(&state(DifficultyLevel::Hard, 15, 2, 14), 0), 2);
    // a multiple of max + 1: no move wins, the maximum is taken
    assert_eq!(pebbles_to_remove(&state(DifficultyLevel::Hard, 15, 3, 12), 0), 3);
    assert_eq!(pebbles_to_remove(&state(DifficultyLevel::Hard, 15, 1, 10), 0), 1);
    assert_eq!(pebbles_to_remove(&state(DifficultyLevel::Hard, 15, 1, 9), 0), 1);
    assert_eq!(pebbles_to_remove(&state(DifficultyLevel::Hard, 15, 2, 0), 0), 0);
    // the hard level does not draw
    assert_eq!(pebbles_to_remove(&state(DifficultyLevel::Hard, 15, 3, 10), 12345), 2);
}

#[test]
fn hard_move_without_drawing() {
    let mut s = state(DifficultyLevel::Hard, 15, 4, 9);
    let before = s;
    assert_eq!(get_pebbles_to_remove(&mut s), 4);
    assert_eq!(s, before);
}

#[test]
fn starting_a_game() {
    let s = start_game(DifficultyLevel::Easy, 15, 2, Player::Program, 5);
    assert_eq!(s.pebbles_remaining, 13);
    assert_eq!(s.first_player, Player::Program);
    assert_eq!(s.winner, None);
    assert_eq!((s.pebbles_count, s.max_pebbles_per_turn), (15, 2));
    let s = start_game(DifficultyLevel::Easy, 15, 2, Player::User, 5);
    assert_eq!(s.pebbles_remaining, 15);
    let s = start_game(DifficultyLevel::Hard, 15, 4, Player::Program, 5);
    assert_eq!(s.pebbles_remaining, 11);
    assert_eq!(s.difficulty, DifficultyLevel::Hard);
    let s = start_game(DifficultyLevel::Hard, 11, 2, Player::Program, 1);
    assert_eq!(s.pebbles_remaining, 9);
    assert_eq!(s.winner, None);
    // the maximum may equal the pile: the program's opening move can win
    let s = start_game(DifficultyLevel::Easy, 3, 3, Player::Program, 2);
    assert_eq!(s.pebbles_remaining, 0);
    assert_eq!(s.winner, Some(Player::Program));
    let s = start_game(DifficultyLevel::Hard, 4, 4, Player::Program, 0);
    assert_eq!(s.pebbles_remaining, 0);
    assert_eq!(s.winner, Some(Player::Program));
}

#[test]
fn user_request_is_clamped_and_program_answers() {
    let mut s = state(DifficultyLevel::Easy, 15, 3, 10);
    let r = play_turn(&mut s, 100, 4);
    assert_eq!(s.pebbles_remaining, 5);
    assert_eq!(r, counter(5));
    assert_eq!(s.winner, None);
}

#[test]
fn user_taking_last_pebbles_wins() {
    let mut s = state(DifficultyLevel::Easy, 15, 3, 2);
    let r = play_turn(&mut s, 5, 0);
    assert_eq!(s.pebbles_remaining, 0);
    assert_eq!(s.winner, Some(Player::User));
    assert_eq!(r, won(Player::User, true));
}

#[test]
fn program_taking_last_pebbles_wins() {
    let mut s = state(DifficultyLevel::Hard, 15, 3, 5);
    let r = play_turn(&mut s, 2, 0);
    assert_eq!(s.pebbles_remaining, 0);
    assert_eq!(s.winner, Some(Player::Program));
    assert_eq!(r, won(Player::Program, true));
}

#[test]
fn empty_request_takes_nothing() {
    let mut s = state(DifficultyLevel::Hard, 15, 3, 10);
    let r = play_turn(&mut s, 0, 0);
    assert_eq!(s.pebbles_remaining, 8);
    assert_eq!(r, counter(8));
}

#[test]
fn hard_level_is_deterministic() {
    let mut a = state(DifficultyLevel::Hard, 20, 4, 17);
    let mut b = a;
    let ra = play_turn(&mut a, 3, 1);
    let rb = play_turn(&mut b, 3, 99);
    assert_eq!(a, b);
    assert_eq!(ra, rb);
    assert_eq!(a.pebbles_remaining, 10);
}

#[test]
fn turns_never_grow_the_pile_and_keep_parameters() {
    for x in 0..6u32 {
        for r in 0..6u32 {
            let before = state(DifficultyLevel::Easy, 15, 3, 9);
            let mut s = before;
            play_turn(&mut s, x, r);
            assert!(s.pebbles_remaining <= before.pebbles_remaining);
            if x >= 1 {
                assert!(s.pebbles_remaining < before.pebbles_remaining);
            }
            assert_eq!(s.pebbles_count, 15);
            assert_eq!(s.max_pebbles_per_turn, 3);
            assert_eq!(s.difficulty, DifficultyLevel::Easy);
        }
    }
}

#[test]
fn giving_up_hands_program_the_win() {
    let mut s = state(DifficultyLevel::Easy, 15, 3, 9);
    let r = handle_action(&mut s, PebblesAction::GiveUp);
    assert_eq!(r, won(Player::Program, false));
    assert_eq!(s.winner, Some(Player::Program));
    assert_eq!(s.pebbles_remaining, 9);
}

#[test]
fn hard_turn_through_handle_action() {
    let mut s = state(DifficultyLevel::Hard, 15, 3, 6);
    let r = handle_action(&mut s, PebblesAction::Turn(3));
    assert_eq!(s.winner, Some(Player::Program));
    assert_eq!(s.pebbles_remaining, 0);
    assert_eq!(r, won(Player::Program, true));
}

#[test]
fn restart_echoes_parameters() {
    let mut s = state(DifficultyLevel::Easy, 15, 3, 1);
    s.winner = Some(Player::User);
    let r = handle_action_with(
        &mut s,
        PebblesAction::Restart {
            difficulty: DifficultyLevel::Hard,
            pebbles_count: 20,
            max_pebbles_per_turn: 5,
        },
        Player::Program,
        0,
    );
    assert_eq!(
        r.reply,
        Reply::Restarted(PebblesInit {
            difficulty: DifficultyLevel::Hard,
            pebbles_count: 20,
            max_pebbles_per_turn: 5,
        })
    );
    assert!(!r.leave);
    assert_eq!(s.winner, None);
    assert_eq!(s.pebbles_remaining, 18);
    assert_eq!(s.first_player, Player::Program);
}

#[test]
fn turn_on_a_game_never_started() {
    let mut s = GameState::default();
    let r = handle_action(&mut s, PebblesAction::Turn(5));
    assert_eq!(s.winner, Some(Player::User));
    assert_eq!(r, won(Player::User, true));
}

#[test]
fn actions_that_can_be_answered() {
    let s = state(DifficultyLevel::Easy, 15, 3, 9);
    assert!(can_handle(&s, &PebblesAction::Turn(2)));
    assert!(can_handle(&s, &PebblesAction::GiveUp));
    let bad = PebblesAction::Restart {
        difficulty: DifficultyLevel::Easy,
        pebbles_count: 3,
        max_pebbles_per_turn: 4,
    };
    assert!(!can_handle(&s, &bad));
    // a game that was never started: the program could not answer
    let mut fresh = GameState::default();
    fresh.pebbles_remaining = 4;
    assert!(!can_handle(&fresh, &PebblesAction::Turn(1)));
    assert!(can_handle(&GameState::default(), &PebblesAction::Turn(1)));
}

#[test]
fn restart_parameters_are_checked() {
    let s = state(DifficultyLevel::Easy, 15, 3, 9);
    let restart = |d, c, m| PebblesAction::Restart {
        difficulty: d,
        pebbles_count: c,
        max_pebbles_per_turn: m,
    };
    assert!(can_handle(&s, &restart(DifficultyLevel::Easy, 15, 2)));
    assert!(can_handle(&s, &restart(DifficultyLevel::Hard, 15, 15)));
    assert!(!can_handle(&s, &restart(DifficultyLevel::Easy, 15, 16)));
    assert!(!can_handle(&s, &restart(DifficultyLevel::Hard, 0, 0)));
    assert!(can_handle(&s, &restart(DifficultyLevel::Hard, u32::MAX, u32::MAX - 1)));
}

#[test]
fn finished_game_keeps_its_winner() {
    let mut s = state(DifficultyLevel::Easy, 15, 3, 0);
    s.winner = Some(Player::Program);
    let before = s;
    let r = play_turn(&mut s, 2, 7);
    assert_eq!(s, before);
    assert_eq!(r, won(Player::Program, true));
    let r = handle_action(&mut s, PebblesAction::GiveUp);
    assert_eq!(s, before);
    assert_eq!(r, won(Player::Program, false));

    let mut s = state(DifficultyLevel::Hard, 15, 3, 0);
    s.winner = Some(Player::User);
    let before = s;
    let r = handle_action(&mut s, PebblesAction::GiveUp);
    assert_eq!(s, before);
    assert_eq!(r, won(Player::User, false));
    let r = handle_action(&mut s, PebblesAction::Turn(1));
    assert_eq!(s, before);
    assert_eq!(r, won(Player::User, true));
}

#[test]
fn hard_program_wins_from_a_multiple() {
    // 15 is a multiple of 3: whatever the user asks for, the program wins
    for seed in 0..64u32 {
        let mut s = start_game(DifficultyLevel::Hard, 15, 2, Player::User, 0);
        let mut turns = 0;
        while s.winner.is_none() {
            let x = ((seed >> (turns % 6)) & 1) + 1;
            let r = play_turn(&mut s, x, 0);
            turns += 1;
            if s.winner.is_none() {
                assert_eq!(s.pebbles_remaining % 3, 0);
                assert_eq!(r, counter(s.pebbles_remaining));
            }
        }
        assert_eq!(s.winner, Some(Player::Program));
        assert_eq!(s.pebbles_remaining, 0);
    }
}

#[test]
fn easy_game_of_fifteen_ends_within_eight_turns() {
    for seed in 0..32u32 {
        let mut s = start_game(DifficultyLevel::Easy, 15, 2, Player::User, seed);
        for t in 0..8u32 {
            let x = ((seed >> (t % 5)) & 1) + 1;
            play_turn(&mut s, x, seed.wrapping_mul(t + 1));
        }
        assert_eq!(s.pebbles_remaining, 0);
        assert!(s.winner.is_some());
    }
}

#[test]
fn given_up_game_is_played_on() {
    let mut s = state(DifficultyLevel::Easy, 15, 3, 9);
    let r = handle_action_with(&mut s, PebblesAction::GiveUp, Player::User, 0);
    assert_eq!(r, won(Player::Program, false));
    let r = handle_action_with(&mut s, PebblesAction::Turn(2), Player::User, 0);
    assert_eq!(s.pebbles_remaining, 6);
    assert_eq!(s.winner, Some(Player::Program));
    assert_eq!(r, counter(6));

    let mut s = state(DifficultyLevel::Hard, 15, 3, 2);
    s.winner = Some(Player::Program);
    let r = handle_action(&mut s, PebblesAction::Turn(3));
    assert_eq!(s.pebbles_remaining, 0);
    assert_eq!(s.winner, Some(Player::User));
    assert_eq!(r, won(Player::User, true));
}
