//! The game engine: a turn-based pebble-removal game. The User and the
//! Program alternately remove pebbles from a shared pile; whoever removes the
//! last pebble wins.
//!
//! The engine is pure: the host passes the random draws it obtained (for the
//! coin flip that picks the first player, and for the Easy policy's move) in
//! as plain arguments, and delivers the returned events itself.

use vstd::prelude::*;
use vstd::arithmetic::div_mod::{
    lemma_div_pos_is_pos, lemma_fundamental_div_mod, lemma_mod_division_less_than_divisor,
    lemma_mod_multiples_basic,
};

use crate::types::{DifficultyLevel, GameState, PebblesEvent, Player};

verus! {

/// The side the coin flip puts first: an even draw puts the User first, an
/// odd one the Program.
pub open spec fn first_player_of(coin: u32) -> Player {
    if coin % 2 == 0 {
        Player::User
    } else {
        Player::Program
    }
}

/// The pile after removing `amount` pebbles, floored at zero: a removal
/// larger than the pile simply empties it.
pub open spec fn pile_minus(pile: u32, amount: int) -> u32 {
    if amount >= pile {
        0u32
    } else {
        (pile - amount) as u32
    }
}

/// How many pebbles the Easy policy removes given the random draw `roll`:
/// uniform in `[1, max_pebbles_per_turn]`.
pub open spec fn easy_move(max_pebbles_per_turn: u32, roll: u32) -> int {
    1 + roll as int % max_pebbles_per_turn as int
}

/// How many pebbles the Hard (optimal) policy removes from `pile`: the
/// remainder of the pile modulo `max_pebbles_per_turn + 1`, or, when the pile
/// is already aligned, the whole block of `max_pebbles_per_turn + 1`.
pub open spec fn hard_move(pile: u32, max_pebbles_per_turn: u32) -> int {
    let rem = pile as int % (max_pebbles_per_turn as int + 1);
    if rem == 0 {
        max_pebbles_per_turn as int + 1
    } else {
        rem
    }
}

/// How many pebbles the program removes from state `s`, given the random
/// draw `roll` (used by the Easy policy only).
pub open spec fn program_move(s: GameState, roll: u32) -> int {
    match s.difficulty {
        DifficultyLevel::Easy => easy_move(s.max_pebbles_per_turn, roll),
        DifficultyLevel::Hard => hard_move(s.pebbles_remaining, s.max_pebbles_per_turn),
    }
}

/// The state after the program's move on `s`: the pile shrinks by
/// `program_move`, and the program wins if that empties it.
pub open spec fn program_turn_state(s: GameState, roll: u32) -> GameState {
    let left = pile_minus(s.pebbles_remaining, program_move(s, roll));
    GameState {
        pebbles_remaining: left,
        winner: if left == 0 {
            Some(Player::Program)
        } else {
            s.winner
        },
        ..s
    }
}

/// The response the program's move on `s` emits: its win, or the amount it
/// removed.
pub open spec fn program_turn_event(s: GameState, roll: u32) -> PebblesEvent {
    if pile_minus(s.pebbles_remaining, program_move(s, roll)) == 0 {
        PebblesEvent::Won(Player::Program)
    } else {
        PebblesEvent::CounterTurn(program_move(s, roll) as u32)
    }
}

/// A game just set up, before any program move: full pile, no winner.
pub open spec fn fresh_state(
    pebbles_count: u32,
    max_pebbles_per_turn: u32,
    difficulty: DifficultyLevel,
    coin: u32,
) -> GameState {
    GameState {
        pebbles_count,
        max_pebbles_per_turn,
        pebbles_remaining: pebbles_count,
        difficulty,
        first_player: first_player_of(coin),
        winner: None,
    }
}

/// What a (re)initialization leaves behind: the fresh state, with the
/// program's move already applied when the coin put the Program first.
pub open spec fn initialized_state(
    pebbles_count: u32,
    max_pebbles_per_turn: u32,
    difficulty: DifficultyLevel,
    coin: u32,
    roll: u32,
) -> GameState {
    let fresh = fresh_state(pebbles_count, max_pebbles_per_turn, difficulty, coin);
    if first_player_of(coin) is Program {
        program_turn_state(fresh, roll)
    } else {
        fresh
    }
}

/// The response a (re)initialization emits: the program's opening move when
/// the coin put the Program first, nothing otherwise.
pub open spec fn initialized_event(
    pebbles_count: u32,
    max_pebbles_per_turn: u32,
    difficulty: DifficultyLevel,
    coin: u32,
    roll: u32,
) -> Option<PebblesEvent> {
    let fresh = fresh_state(pebbles_count, max_pebbles_per_turn, difficulty, coin);
    if first_player_of(coin) is Program {
        Some(program_turn_event(fresh, roll))
    } else {
        None
    }
}

/// The state after the User's own removal, before any program move: the pile
/// shrinks by `pebbles_to_remove`, floored at zero.
pub open spec fn user_move_state(s: GameState, pebbles_to_remove: u32) -> GameState {
    GameState { pebbles_remaining: pile_minus(s.pebbles_remaining, pebbles_to_remove as int), ..s }
}

/// The state a whole User turn leaves behind: the User's removal, then
/// either the User's win (pile emptied) or the program's counter-move.
pub open spec fn turn_state(s: GameState, pebbles_to_remove: u32, roll: u32) -> GameState {
    let mid = user_move_state(s, pebbles_to_remove);
    if mid.pebbles_remaining == 0 {
        GameState { winner: Some(Player::User), ..mid }
    } else {
        program_turn_state(mid, roll)
    }
}

/// The one response a whole User turn emits: the User's win, or what the
/// program's counter-move reports.
pub open spec fn turn_event(s: GameState, pebbles_to_remove: u32, roll: u32) -> PebblesEvent {
    let mid = user_move_state(s, pebbles_to_remove);
    if mid.pebbles_remaining == 0 {
        PebblesEvent::Won(Player::User)
    } else {
        program_turn_event(mid, roll)
    }
}

/// The state forfeiting leaves behind: the Program wins, the pile stays as
/// it was.
pub open spec fn gave_up_state(s: GameState) -> GameState {
    GameState { winner: Some(Player::Program), ..s }
}

/// The program's move: shrink the pile by the policy's amount, claim the win
/// if the pile empties, and report what happened.
fn program_turn(s: &mut GameState, roll: u32) -> (ev: PebblesEvent)
    requires
        old(s).wf(),
        1 <= old(s).pebbles_remaining,
    ensures
        *final(s) == program_turn_state(*old(s), roll),
        ev == program_turn_event(*old(s), roll),
{
    let amount: u32 = match s.difficulty {
        DifficultyLevel::Easy => 1 + roll % s.max_pebbles_per_turn,
        DifficultyLevel::Hard => {
            let rem: u32 = s.pebbles_remaining % (s.max_pebbles_per_turn + 1);
            if rem == 0 {
                s.max_pebbles_per_turn + 1
            } else {
                rem
            }
        },
    };
    s.pebbles_remaining = s.pebbles_remaining.saturating_sub(amount);
    if s.pebbles_remaining == 0 {
        s.winner = Some(Player::Program);
        PebblesEvent::Won(Player::Program)
    } else {
        PebblesEvent::CounterTurn(amount)
    }
}

/// Set up a new game: full pile, no winner, the first player drawn from
/// `coin`; when the Program goes first it moves at once, using `roll`.
pub fn initialize(
    pebbles_count: u32,
    max_pebbles_per_turn: u32,
    difficulty: DifficultyLevel,
    coin: u32,
    roll: u32,
) -> (r: (GameState, Option<PebblesEvent>))
    requires
        1 <= pebbles_count,
        1 <= max_pebbles_per_turn,
        max_pebbles_per_turn < u32::MAX,
    ensures
        r.0 == initialized_state(pebbles_count, max_pebbles_per_turn, difficulty, coin, roll),
        r.1 == initialized_event(pebbles_count, max_pebbles_per_turn, difficulty, coin, roll),
        r.0.wf(),
        r.0.pebbles_remaining <= pebbles_count,
{
    let first_player = if coin % 2 == 0 {
        Player::User
    } else {
        Player::Program
    };
    let mut state = GameState {
        pebbles_count,
        max_pebbles_per_turn,
        pebbles_remaining: pebbles_count,
        difficulty,
        first_player,
        winner: None,
    };
    if first_player == Player::Program {
        let ev = program_turn(&mut state, roll);
        (state, Some(ev))
    } else {
        (state, None)
    }
}

/// One User turn on a game still in progress: remove `pebbles_to_remove`
/// pebbles (within the cap), and either win, or let the program counter.
/// The pile shrinks by at least `pebbles_to_remove`, and never below zero.
pub fn apply_turn(s: &mut GameState, pebbles_to_remove: u32, roll: u32) -> (ev: PebblesEvent)
    requires
        old(s).wf(),
        old(s).winner is None,
        1 <= pebbles_to_remove,
        pebbles_to_remove <= old(s).max_pebbles_per_turn,
    ensures
        *final(s) == turn_state(*old(s), pebbles_to_remove, roll),
        ev == turn_event(*old(s), pebbles_to_remove, roll),
        final(s).wf(),
        final(s).pebbles_remaining + pebbles_to_remove <= old(s).pebbles_remaining
            || final(s).pebbles_remaining == 0,
{
    s.pebbles_remaining = s.pebbles_remaining.saturating_sub(pebbles_to_remove);
    if s.pebbles_remaining == 0 {
        s.winner = Some(Player::User);
        PebblesEvent::Won(Player::User)
    } else {
        program_turn(s, roll)
    }
}

/// The User forfeits: the Program wins on the spot, whatever the state of
/// the game, and the pile is left untouched.
pub fn give_up(s: &mut GameState) -> (ev: PebblesEvent)
    ensures
        *final(s) == gave_up_state(*old(s)),
        ev == PebblesEvent::Won(Player::Program),
{
    s.winner = Some(Player::Program);
    PebblesEvent::Won(Player::Program)
}

/// Throw the old game away, whatever was in it, and set up a new one from
/// the given parameters, exactly as `initialize` does.
pub fn restart(
    s: &mut GameState,
    difficulty: DifficultyLevel,
    pebbles_count: u32,
    max_pebbles_per_turn: u32,
    coin: u32,
    roll: u32,
) -> (ev: Option<PebblesEvent>)
    requires
        1 <= pebbles_count,
        1 <= max_pebbles_per_turn,
        max_pebbles_per_turn < u32::MAX,
    ensures
        *final(s) == initialized_state(pebbles_count, max_pebbles_per_turn, difficulty, coin, roll),
        ev == initialized_event(pebbles_count, max_pebbles_per_turn, difficulty, coin, roll),
        final(s).wf(),
{
    let (state, ev) = initialize(pebbles_count, max_pebbles_per_turn, difficulty, coin, roll);
    *s = state;
    ev
}

/// A read-only copy of the current state, for external inspection.
pub fn snapshot(s: &GameState) -> (r: GameState)
    ensures
        r == *s,
{
    *s
}

/// Setting a game up gives it the full pile before any program move, and the
/// program's opening move, when there is one, can only shrink it: whatever
/// the coin and the roll, the state `initialize` and `restart` leave behind
/// holds at most `pebbles_count` pebbles.
pub proof fn lemma_initialize_pile_bound(
    pebbles_count: u32,
    max_pebbles_per_turn: u32,
    difficulty: DifficultyLevel,
    coin: u32,
    roll: u32,
)
    requires
        1 <= pebbles_count,
        1 <= max_pebbles_per_turn,
        max_pebbles_per_turn < u32::MAX,
    ensures
        fresh_state(pebbles_count, max_pebbles_per_turn, difficulty, coin).pebbles_remaining
            == pebbles_count,
        initialized_state(pebbles_count, max_pebbles_per_turn, difficulty, coin, roll)
            .pebbles_remaining <= pebbles_count,
{
}

/// A finished game's pile is frozen until a restart: `apply_turn` demands a
/// game with no winner yet, and forfeiting — the one other operation that
/// touches a running game — marks the Program as winner without moving a
/// pebble.
pub proof fn lemma_terminal_pile_frozen(s: GameState)
    requires
        s.winner is Some,
    ensures
        gave_up_state(s).pebbles_remaining == s.pebbles_remaining,
        gave_up_state(s).winner is Some,
{
}

/// Forfeiting makes the Program the winner whatever the state held before,
/// and changes nothing else: not the pile, not the parameters, not the
/// record of who moved first.
pub proof fn lemma_give_up_program_wins(s: GameState)
    ensures
        gave_up_state(s).winner == Some(Player::Program),
        gave_up_state(s).pebbles_remaining == s.pebbles_remaining,
        gave_up_state(s) == (GameState { winner: Some(Player::Program), ..s }),
{
}

/// A restart is built from its parameters alone — no trace of the previous
/// game survives. Before any program move the new game has the full pile and
/// no winner; afterwards the parameters still stand as given, and a winner
/// exists exactly when the program's opening move emptied the pile.
pub proof fn lemma_restart_resets(
    pebbles_count: u32,
    max_pebbles_per_turn: u32,
    difficulty: DifficultyLevel,
    coin: u32,
    roll: u32,
)
    requires
        1 <= pebbles_count,
        1 <= max_pebbles_per_turn,
        max_pebbles_per_turn < u32::MAX,
    ensures
        fresh_state(pebbles_count, max_pebbles_per_turn, difficulty, coin).pebbles_remaining
            == pebbles_count,
        fresh_state(pebbles_count, max_pebbles_per_turn, difficulty, coin).winner is None,
        initialized_state(pebbles_count, max_pebbles_per_turn, difficulty, coin, roll)
            .pebbles_count == pebbles_count,
        initialized_state(pebbles_count, max_pebbles_per_turn, difficulty, coin, roll)
            .max_pebbles_per_turn == max_pebbles_per_turn,
        initialized_state(pebbles_count, max_pebbles_per_turn, difficulty, coin, roll)
            .difficulty == difficulty,
        first_player_of(coin) is User
            ==> initialized_state(pebbles_count, max_pebbles_per_turn, difficulty, coin, roll)
                == fresh_state(pebbles_count, max_pebbles_per_turn, difficulty, coin),
        initialized_state(pebbles_count, max_pebbles_per_turn, difficulty, coin, roll)
            .winner is Some
            <==> (first_player_of(coin) is Program
                && initialized_state(pebbles_count, max_pebbles_per_turn, difficulty, coin, roll)
                    .pebbles_remaining == 0),
{
}

/// The Hard policy removes the pile's remainder modulo `cap + 1` when that
/// remainder is nonzero, and in that case what it leaves behind is an exact
/// multiple of `cap + 1` — the optimal-play invariant.
pub proof fn lemma_hard_move_aligns(pile: u32, max_pebbles_per_turn: u32)
    requires
        1 <= max_pebbles_per_turn,
        max_pebbles_per_turn < u32::MAX,
        pile as int % (max_pebbles_per_turn as int + 1) != 0,
    ensures
        hard_move(pile, max_pebbles_per_turn)
            == pile as int % (max_pebbles_per_turn as int + 1),
        pile_minus(pile, hard_move(pile, max_pebbles_per_turn)) as int
            % (max_pebbles_per_turn as int + 1) == 0,
{
    let d = max_pebbles_per_turn as int + 1;
    let p = pile as int;
    let r = p % d;
    lemma_mod_division_less_than_divisor(p, d);
    lemma_fundamental_div_mod(p, d);
    lemma_div_pos_is_pos(p, d);
    assert(p - r == d * (p / d));
    assert(r <= p) by {
        assert(d * (p / d) >= 0) by (nonlinear_arith)
            requires
                d > 0,
                p / d >= 0,
        ;
    }
    if r == p {
        assert(pile_minus(pile, r) == 0);
    } else {
        assert(pile_minus(pile, r) == p - r);
        lemma_mod_multiples_basic(p / d, d);
    }
}

} // verus!
