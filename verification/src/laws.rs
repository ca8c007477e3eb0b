//! Properties of the game that span its operations.

use vstd::prelude::*;
use vstd::arithmetic::div_mod::{
    lemma_fundamental_div_mod, lemma_fundamental_div_mod_converse, lemma_mod_pos_bound,
};
use crate::types::{
    DifficultyLevel, GameState, PebblesAction, PebblesEvent, PebblesInit, Player, Reply, Response,
};
use crate::strategy::{hard_move, program_move, program_move_defined};
use crate::game::{
    after_user, finished, give_up, handle, handle_defined, start_state, turn, turn_defined,
    valid_input, won,
};

verus! {

/// A state a game can be in once started: its parameters are valid, the
/// pile never exceeds its initial size, an empty pile has a winner, and the
/// user has won only by emptying the pile.
pub open spec fn well_formed(s: GameState) -> bool {
    &&& valid_input(s.pebbles_count, s.max_pebbles_per_turn)
    &&& s.pebbles_remaining <= s.pebbles_count
    &&& s.pebbles_remaining == 0 ==> s.winner is Some
    &&& s.winner == Some(Player::User) ==> s.pebbles_remaining == 0
}

/// The parameters of a game: everything but the pile and the winner.
pub open spec fn same_parameters(a: GameState, b: GameState) -> bool {
    &&& a.pebbles_count == b.pebbles_count
    &&& a.max_pebbles_per_turn == b.max_pebbles_per_turn
    &&& a.difficulty == b.difficulty
    &&& a.first_player == b.first_player
}

/// The state after a sequence of turns, each a request of the user and the
/// program's draw.
pub open spec fn play(s: GameState, moves: Seq<(u32, u32)>) -> GameState
    decreases moves.len(),
{
    if moves.len() == 0 {
        s
    } else {
        play(turn(s, moves[0].0, moves[0].1).0, moves.drop_first())
    }
}

/// Division of `x` by `d` with its remainder.
proof fn lemma_div_mod(x: int, d: int)
    requires
        0 <= x,
        0 < d,
    ensures
        x == d * (x / d) + x % d,
        0 <= x % d < d,
        0 <= x / d,
{
    lemma_fundamental_div_mod(x, d);
    lemma_mod_pos_bound(x, d);
    let q = x / d;
    let r = x % d;
    assert(0 <= q) by (nonlinear_arith)
        requires
            x == d * q + r,
            0 <= x,
            0 < d,
            r < d,
    ;
}

/// The program's move never exceeds the maximum; at the easy level it is
/// at least one, and at the hard level it never exceeds the pile and is at
/// least one while pebbles are left: every move is a legal one.
pub proof fn lemma_program_move_bounds(s: GameState, random: u32)
    requires
        program_move_defined(s),
        s.max_pebbles_per_turn >= 1,
    ensures
        0 <= program_move(s, random) <= s.max_pebbles_per_turn,
        s.difficulty == DifficultyLevel::Easy ==> 1 <= program_move(s, random),
        s.difficulty == DifficultyLevel::Hard ==> program_move(s, random)
            <= s.pebbles_remaining,
        (s.difficulty == DifficultyLevel::Hard && s.pebbles_remaining >= 1) ==> 1
            <= program_move(s, random),
{
    let m1: int = s.max_pebbles_per_turn + 1;
    lemma_div_mod(s.pebbles_remaining as int, m1);
    if s.difficulty == DifficultyLevel::Easy {
        lemma_div_mod(random as int, s.max_pebbles_per_turn as int);
    }
}

/// The hard program does not draw: its move, and so a whole turn, is the
/// same whatever random number is supplied.
pub proof fn lemma_hard_is_deterministic(s: GameState, x: u32, r1: u32, r2: u32)
    requires
        s.difficulty == DifficultyLevel::Hard,
    ensures
        program_move(s, r1) == program_move(s, r2),
        turn(s, x, r1) == turn(s, x, r2),
{
}

/// When it can, the hard program keeps more than the maximum on the pile,
/// so that the user cannot clear it in one turn.
pub proof fn lemma_hard_keeps_more_than_max(remaining: u32, max: u32)
    requires
        max >= 1,
        remaining >= max + 2,
    ensures
        1 <= hard_move(remaining, max) <= max,
        remaining - hard_move(remaining, max) > max,
{
    let m1: int = max + 1;
    lemma_div_mod(remaining as int, m1);
    let q: int = remaining as int / m1;
    let r: int = remaining as int % m1;
    assert(q >= 1) by (nonlinear_arith)
        requires
            remaining == m1 * q + r,
            r < m1,
            remaining >= m1,
            m1 > 0,
            q >= 0,
    ;
    if r != 0 {
        assert(m1 * q >= m1) by (nonlinear_arith)
            requires
                q >= 1,
                m1 > 0,
        ;
    } else {
        assert(q >= 2) by (nonlinear_arith)
            requires
                remaining == m1 * q,
                remaining > m1,
                m1 > 0,
        ;
        assert(m1 * q >= 2 * m1) by (nonlinear_arith)
            requires
                q >= 2,
                m1 > 0,
        ;
    }
}

/// From a pile that is not a multiple of `max + 1`, the hard program takes
/// between 1 and the maximum and leaves a multiple of `max + 1` (possibly
/// an empty pile).
pub proof fn lemma_hard_leaves_multiple(remaining: u32, max: u32)
    requires
        max >= 1,
        remaining as int % (max + 1) != 0,
    ensures
        1 <= hard_move(remaining, max) <= max,
        hard_move(remaining, max) <= remaining,
        (remaining - hard_move(remaining, max)) % (max + 1) as int == 0,
{
    let m1: int = max + 1;
    lemma_div_mod(remaining as int, m1);
    let q: int = remaining as int / m1;
    let r: int = remaining as int % m1;
    if remaining <= max {
        lemma_fundamental_div_mod_converse(0, m1, 0, 0);
    } else {
        assert(q * m1 == m1 * q) by (nonlinear_arith);
        lemma_fundamental_div_mod_converse(q * m1, m1, q, 0);
    }
}

/// Facing a multiple of `max + 1`, whatever legal move the user makes, the
/// hard program either takes the rest or leaves a multiple of `max + 1`
/// again.
pub proof fn lemma_hard_restores_multiple(remaining: u32, max: u32, x: u32)
    requires
        max >= 1,
        remaining > 0,
        remaining as int % (max + 1) == 0,
        1 <= x <= max,
    ensures
        remaining - x > 0,
        remaining - x <= max ==> hard_move((remaining - x) as u32, max) == remaining - x,
        remaining - x > max ==> ({
            let rest = remaining - x - hard_move((remaining - x) as u32, max);
            &&& 1 <= hard_move((remaining - x) as u32, max) <= max
            &&& rest > 0
            &&& rest % (max + 1) as int == 0
        }),
{
    let m1: int = max + 1;
    lemma_div_mod(remaining as int, m1);
    let q: int = remaining as int / m1;
    assert(q >= 1) by (nonlinear_arith)
        requires
            remaining == m1 * q,
            remaining > 0,
            m1 > 0,
    ;
    let rem1 = remaining - x;
    assert(rem1 == (q - 1) * m1 + (m1 - x)) by (nonlinear_arith)
        requires
            remaining == m1 * q,
            rem1 == remaining - x,
    ;
    lemma_fundamental_div_mod_converse(rem1, m1, q - 1, m1 - x);
    if rem1 > max {
        assert(q >= 2) by (nonlinear_arith)
            requires
                rem1 == (q - 1) * m1 + (m1 - x),
                rem1 > max,
                m1 == max + 1,
                q >= 1,
                x >= 1,
        ;
        lemma_hard_leaves_multiple(rem1 as u32, max);
        assert((q - 1) * m1 >= m1) by (nonlinear_arith)
            requires
                q >= 2,
                m1 > 0,
        ;
    }
}

/// The hard program's strategy wins: facing a multiple of `max + 1`, the
/// user never wins the turn, and after it either the program has won or
/// the user again faces a multiple of `max + 1`.
pub proof fn lemma_hard_strategy_wins(s: GameState, x: u32, random: u32)
    requires
        s.difficulty == DifficultyLevel::Hard,
        well_formed(s),
        s.winner == None::<Player>,
        s.pebbles_remaining as int % (s.max_pebbles_per_turn + 1) == 0,
        x >= 1,
    ensures
        ({
            let s2 = turn(s, x, random).0;
            ||| s2.winner == Some(Player::Program)
            ||| (s2.winner == None::<Player> && s2.pebbles_remaining > 0
                && s2.pebbles_remaining as int % (s2.max_pebbles_per_turn + 1) == 0)
        }),
{
    let t = if x > s.max_pebbles_per_turn {
        s.max_pebbles_per_turn
    } else {
        x
    };
    lemma_hard_restores_multiple(s.pebbles_remaining, s.max_pebbles_per_turn, t);
}

/// A new game is well formed. When the user moves first the pile is whole
/// and nobody has won; when the program moves first it has taken between
/// one and the maximum, and has won exactly if that emptied the pile; the
/// hard program's opening move is its winning move.
pub proof fn lemma_start_state(
    difficulty: DifficultyLevel,
    pebbles_count: u32,
    max_pebbles_per_turn: u32,
    first: Player,
    random: u32,
)
    requires
        valid_input(pebbles_count, max_pebbles_per_turn),
    ensures
        ({
            let s = start_state(difficulty, pebbles_count, max_pebbles_per_turn, first, random);
            &&& well_formed(s)
            &&& s.first_player == first
            &&& s.difficulty == difficulty
            &&& s.pebbles_count == pebbles_count
            &&& s.max_pebbles_per_turn == max_pebbles_per_turn
            &&& first == Player::User ==> (s.pebbles_remaining == pebbles_count && s.winner
                == None::<Player>)
            &&& first == Player::Program ==> (pebbles_count - max_pebbles_per_turn
                <= s.pebbles_remaining <= pebbles_count - 1)
            &&& first == Player::Program ==> (s.winner == Some(Player::Program)
                <==> s.pebbles_remaining == 0)
            &&& first == Player::Program ==> s.winner != Some(Player::User)
            &&& (first == Player::Program && difficulty == DifficultyLevel::Hard)
                ==> s.pebbles_remaining == pebbles_count - hard_move(
                pebbles_count,
                max_pebbles_per_turn,
            )
        }),
{
    let s0 = crate::game::fresh_state(difficulty, pebbles_count, max_pebbles_per_turn, first);
    lemma_program_move_bounds(s0, random);
}

/// In a well-formed game every turn and every surrender can be answered.
pub proof fn lemma_well_formed_turns_defined(s: GameState, x: u32)
    requires
        well_formed(s),
    ensures
        turn_defined(s, x),
        handle_defined(s, PebblesAction::Turn(x)),
        handle_defined(s, PebblesAction::GiveUp),
{
}

/// A turn on a well-formed game leaves it well formed.
pub proof fn lemma_turn_preserves_well_formed(s: GameState, x: u32, random: u32)
    requires
        well_formed(s),
    ensures
        well_formed(turn(s, x, random).0),
{
}

/// Every answered action leaves a well-formed game well formed: the pile
/// stays within its size, an empty pile has a winner, and the user has won
/// only by emptying the pile.
pub proof fn lemma_handle_preserves_well_formed(
    s: GameState,
    action: PebblesAction,
    first: Player,
    random: u32,
)
    requires
        well_formed(s),
        handle_defined(s, action),
    ensures
        well_formed(handle(s, action, first, random).0),
{
    if let PebblesAction::Restart { difficulty, pebbles_count, max_pebbles_per_turn } = action {
        lemma_start_state(difficulty, pebbles_count, max_pebbles_per_turn, first, random);
    }
}

/// A turn keeps the game's parameters and never adds pebbles; in a
/// well-formed game with pebbles left, a request for at least one pebble
/// either empties the pile, leaving a winner, or takes at least two
/// pebbles, one by each player.
pub proof fn lemma_turn_shrinks_pile(s: GameState, x: u32, random: u32)
    requires
        turn_defined(s, x),
    ensures
        same_parameters(turn(s, x, random).0, s),
        turn(s, x, random).0.pebbles_remaining <= s.pebbles_remaining,
        (well_formed(s) && s.pebbles_remaining > 0 && x >= 1) ==> ({
            let s2 = turn(s, x, random).0;
            ||| (s2.pebbles_remaining == 0 && s2.winner is Some)
            ||| s2.pebbles_remaining + 2 <= s.pebbles_remaining
        }),
{
    if well_formed(s) && s.pebbles_remaining > 0 && x >= 1 {
        let s1 = after_user(s, x);
        if s1.pebbles_remaining > 0 {
            lemma_program_move_bounds(s1, random);
        }
    }
}

/// Whoever takes the last pebbles wins: in a game that is not over, a turn
/// ends the game exactly when the pile is empty, and then the winner is the
/// user if the user's move emptied it and the program otherwise. A turn
/// that leaves pebbles keeps the recorded winner (none, or the program in a
/// game given up) and reports how many pebbles are left.
pub proof fn lemma_last_pebble_wins(s: GameState, x: u32, random: u32)
    requires
        turn_defined(s, x),
        !finished(s),
    ensures
        ({
            let (s2, r) = turn(s, x, random);
            &&& r.leave <==> s2.pebbles_remaining == 0
            &&& (after_user(s, x).pebbles_remaining == 0) ==> (s2.winner == Some(Player::User)
                && r.reply == Reply::Event(PebblesEvent::Won(Player::User)))
            &&& (after_user(s, x).pebbles_remaining > 0 && s2.pebbles_remaining == 0) ==> (
            s2.winner == Some(Player::Program) && r.reply == Reply::Event(
                PebblesEvent::Won(Player::Program),
            ))
            &&& s2.pebbles_remaining > 0 ==> (s2.winner == s.winner && r.reply
                == Reply::Event(PebblesEvent::CounterTurn(s2.pebbles_remaining)))
        }),
{
}

/// A game whose pile is empty and has a winner is over: turns and
/// surrenders keep the state and answer with that winner.
pub proof fn lemma_finished_game_stays(s: GameState, x: u32, random: u32, w: Player)
    requires
        s.winner == Some(w),
        s.pebbles_remaining == 0,
    ensures
        turn(s, x, random) == (s, won(w, true)),
        give_up(s) == (s, won(w, false)),
{
}

/// The hard program wins whenever the pebbles the user leaves are within
/// its reach.
pub proof fn lemma_hard_wins_within_reach(s: GameState, x: u32, random: u32)
    requires
        s.difficulty == DifficultyLevel::Hard,
        s.winner == None::<Player>,
        0 < after_user(s, x).pebbles_remaining <= s.max_pebbles_per_turn,
    ensures
        turn_defined(s, x),
        turn(s, x, random).0.winner == Some(Player::Program),
        turn(s, x, random).0.pebbles_remaining == 0,
        turn(s, x, random).1.leave,
{
}

/// Giving up hands the win to the program in a game that is not over, and
/// changes nothing else.
pub proof fn lemma_give_up(s: GameState, first: Player, random: u32)
    requires
        !finished(s),
    ensures
        handle_defined(s, PebblesAction::GiveUp),
        ({
            let (s2, r) = handle(s, PebblesAction::GiveUp, first, random);
            &&& s2 == (GameState { winner: Some(Player::Program), ..s })
            &&& r.reply == Reply::Event(PebblesEvent::Won(Player::Program))
            &&& !r.leave
        }),
{
}

/// Turns on a game that is over change nothing.
pub proof fn lemma_play_finished(s: GameState, moves: Seq<(u32, u32)>)
    requires
        finished(s),
    ensures
        play(s, moves) == s,
    decreases moves.len(),
{
    if moves.len() > 0 {
        lemma_play_finished(turn(s, moves[0].0, moves[0].1).0, moves.drop_first());
    }
}

/// A game ends within half as many turns as it has pebbles, rounded up,
/// when every request is for at least one pebble: afterwards the pile is
/// empty and there is a winner. (A game of 15 pebbles is over after 8
/// turns.)
pub proof fn lemma_game_ends(s: GameState, moves: Seq<(u32, u32)>)
    requires
        well_formed(s),
        forall|i: int| 0 <= i < moves.len() ==> #[trigger] moves[i].0 >= 1,
        2 * moves.len() >= s.pebbles_remaining,
    ensures
        play(s, moves).pebbles_remaining == 0,
        play(s, moves).winner is Some,
    decreases moves.len(),
{
    if s.pebbles_remaining == 0 {
        lemma_play_finished(s, moves);
    } else {
        let (x, r) = moves[0];
        assert(moves[0].0 >= 1);
        let s2 = turn(s, x, r).0;
        lemma_turn_shrinks_pile(s, x, r);
        lemma_turn_preserves_well_formed(s, x, r);
        let rest = moves.drop_first();
        assert forall|i: int| 0 <= i < rest.len() implies #[trigger] rest[i].0 >= 1 by {
            assert(rest[i] == moves[i + 1]);
        }
        lemma_game_ends(s2, rest);
    }
}

/// A restart starts the game over whatever state it was in: the new game
/// and the answer depend only on the restart's parameters and the draws,
/// not on the old game; the new game has exactly the given parameters, the
/// reply repeats them, and the new game has a winner only if the program's
/// opening move took every pebble.
pub proof fn lemma_restart_starts_over(
    s1: GameState,
    s2: GameState,
    difficulty: DifficultyLevel,
    pebbles_count: u32,
    max_pebbles_per_turn: u32,
    first: Player,
    random: u32,
)
    requires
        1 <= max_pebbles_per_turn <= pebbles_count,
    ensures
        ({
            let action = PebblesAction::Restart { difficulty, pebbles_count, max_pebbles_per_turn };
            let (g, r) = handle(s1, action, first, random);
            &&& handle(s2, action, first, random) == (g, r)
            &&& r == (Response {
                reply: Reply::Restarted(
                    PebblesInit { difficulty, pebbles_count, max_pebbles_per_turn },
                ),
                leave: false,
            })
            &&& g.difficulty == difficulty
            &&& g.pebbles_count == pebbles_count
            &&& g.max_pebbles_per_turn == max_pebbles_per_turn
            &&& g.first_player == first
            &&& g.pebbles_remaining > 0 ==> g.winner == None::<Player>
            &&& g.pebbles_remaining == 0 ==> g.winner == Some(Player::Program)
            &&& first == Player::User ==> (g.pebbles_remaining == pebbles_count && g.winner
                == None::<Player>)
            &&& first == Player::Program ==> pebbles_count - max_pebbles_per_turn
                <= g.pebbles_remaining < pebbles_count
        }),
{
    lemma_start_state(difficulty, pebbles_count, max_pebbles_per_turn, first, random);
}

/// A restart can be answered in every state, a finished game included,
/// exactly when its parameters are valid: at least one pebble, and a
/// maximum per turn between one and the number of pebbles.
pub proof fn lemma_restart_answerable(
    s: GameState,
    difficulty: DifficultyLevel,
    pebbles_count: u32,
    max_pebbles_per_turn: u32,
)
    ensures
        handle_defined(s, PebblesAction::Restart { difficulty, pebbles_count, max_pebbles_per_turn })
            <==> (1 <= pebbles_count && 1 <= max_pebbles_per_turn && max_pebbles_per_turn
            <= pebbles_count),
{
}

/// The user's move takes exactly what was asked, cut down only to the
/// maximum per turn and to the pile. In a game that is not over (with a
/// maximum of at least one, as every started game has), when that
/// empties the pile the user wins; otherwise the program answers on the
/// pile the user left, and the turn ends with what the program leaves.
pub proof fn lemma_user_move_exact(s: GameState, x: u32, random: u32)
    requires
        !finished(s),
        s.max_pebbles_per_turn >= 1,
    ensures
        ({
            let t: int = if x <= s.max_pebbles_per_turn {
                x as int
            } else {
                s.max_pebbles_per_turn as int
            };
            let rem: int = s.pebbles_remaining as int;
            &&& after_user(s, x).pebbles_remaining == (if t < rem {
                rem - t
            } else {
                0
            })
            &&& same_parameters(after_user(s, x), s)
            &&& after_user(s, x).winner == s.winner
            &&& t >= rem ==> (turn(s, x, random).0.pebbles_remaining == 0 && turn(
                s,
                x,
                random,
            ).0.winner == Some(Player::User) && turn(s, x, random).1.reply == Reply::Event(
                PebblesEvent::Won(Player::User),
            ))
            &&& t < rem ==> ({
                let left = GameState { pebbles_remaining: (rem - t) as u32, ..s };
                let p = program_move(left, random);
                turn(s, x, random).0.pebbles_remaining == (if p < rem - t {
                    rem - t - p
                } else {
                    0
                })
            })
        }),
{
    let t: int = if x <= s.max_pebbles_per_turn {
        x as int
    } else {
        s.max_pebbles_per_turn as int
    };
    let rem: int = s.pebbles_remaining as int;
    if t < rem {
        let left = GameState { pebbles_remaining: (rem - t) as u32, ..s };
        assert(after_user(s, x) == left);
        lemma_program_move_bounds(left, random);
    }
}

} // verus!
