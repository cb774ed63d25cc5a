use pebbles_game::engine::{apply_turn, give_up, initialize, restart, snapshot};
use pebbles_game::types::{DifficultyLevel, PebblesEvent, Player};

#[test]
fn first_player_follows_coin() {
    let (state, event) = initialize(10, 3, DifficultyLevel::Easy, 2, 0);
    assert_eq!(state.first_player, Player::User);
    assert!(event.is_none());
    assert_eq!(state.pebbles_remaining, 10);

    let (state, event) = initialize(10, 3, DifficultyLevel::Easy, 7, 0);
    assert_eq!(state.first_player, Player::Program);
    assert!(event.is_some());
    assert!(state.pebbles_remaining < 10);
}

#[test]
fn easy_counter_moves_land_between_five_and_seven() {
    // Pile of 10, cap 3, User first; the User removes 2, the Easy program
    // removes 1 + (roll % 3), so the pile lands in [5, 7].
    let expected: [(u32, u32); 3] = [(0, 7), (1, 6), (2, 5)];
    for (roll, remaining) in expected {
        let (mut state, _event) = initialize(10, 3, DifficultyLevel::Easy, 0, 0);
        let event = apply_turn(&mut state, 2, roll);
        assert_eq!(state.pebbles_remaining, remaining);
        assert!((5..=7).contains(&state.pebbles_remaining));
        assert_eq!(event, PebblesEvent::CounterTurn(1 + roll % 3));
        assert!(state.winner.is_none());
    }
}

#[test]
fn any_turn_on_single_pebble_wins_for_user() {
    for pebbles_to_remove in 1u32..=3 {
        let (mut state, _event) = initialize(1, 3, DifficultyLevel::Hard, 0, 0);
        let event = apply_turn(&mut state, pebbles_to_remove, 0);
        assert_eq!(state.winner, Some(Player::User));
        assert_eq!(state.pebbles_remaining, 0);
        assert_eq!(event, PebblesEvent::Won(Player::User));
    }
}

#[test]
fn give_up_right_after_init_keeps_pile() {
    // Program first on a Hard game: its opening move removes 12 % 5 = 2.
    let (mut state, _event) = initialize(12, 4, DifficultyLevel::Hard, 1, 0);
    assert_eq!(state.pebbles_remaining, 10);
    let event = give_up(&mut state);
    assert_eq!(state.winner, Some(Player::Program));
    assert_eq!(state.pebbles_remaining, 10);
    assert_eq!(event, PebblesEvent::Won(Player::Program));

    // User first on an Easy game: the pile is still full when the User
    // forfeits.
    let (mut state, _event) = initialize(9, 3, DifficultyLevel::Easy, 0, 0);
    give_up(&mut state);
    assert_eq!(state.winner, Some(Player::Program));
    assert_eq!(state.pebbles_remaining, 9);
}

#[test]
fn restart_discards_previous_game() {
    let (mut state, _event) = initialize(15, 3, DifficultyLevel::Easy, 0, 0);
    apply_turn(&mut state, 3, 0);
    assert_eq!(state.pebbles_remaining, 11);
    // Program first: the Hard opening move removes a whole block of 5.
    let event = restart(&mut state, DifficultyLevel::Hard, 20, 4, 1, 0);
    assert_eq!(state.pebbles_count, 20);
    assert_eq!(state.max_pebbles_per_turn, 4);
    assert_eq!(state.difficulty, DifficultyLevel::Hard);
    assert_eq!(state.pebbles_remaining, 15);
    assert!(state.winner.is_none());
    assert_eq!(event, Some(PebblesEvent::CounterTurn(5)));
}

#[test]
fn hard_policy_removes_remainder_or_whole_block() {
    // Aligned pile: 20 % (4 + 1) == 0, so the program removes 4 + 1 = 5.
    let (state, event) = initialize(20, 4, DifficultyLevel::Hard, 1, 0);
    assert_eq!(event, Some(PebblesEvent::CounterTurn(5)));
    assert_eq!(state.pebbles_remaining, 15);

    // Unaligned pile: 17 % (3 + 1) == 1, so the program removes 1 and leaves
    // a multiple of 4 behind.
    let (state, event) = initialize(17, 3, DifficultyLevel::Hard, 1, 0);
    assert_eq!(event, Some(PebblesEvent::CounterTurn(1)));
    assert_eq!(state.pebbles_remaining, 16);
    assert_eq!(state.pebbles_remaining % 4, 0);
}

#[test]
fn easy_policy_removes_one_plus_roll_mod_cap() {
    let (state, event) = initialize(10, 3, DifficultyLevel::Easy, 1, 7);
    assert_eq!(event, Some(PebblesEvent::CounterTurn(2)));
    assert_eq!(state.pebbles_remaining, 8);
}

#[test]
fn program_wins_by_counter_move() {
    // Pile of 4, User removes 3, leaving 1; the Hard program removes the
    // last pebble and wins.
    let (mut state, _event) = initialize(4, 3, DifficultyLevel::Hard, 0, 0);
    let event = apply_turn(&mut state, 3, 0);
    assert_eq!(event, PebblesEvent::Won(Player::Program));
    assert_eq!(state.winner, Some(Player::Program));
    assert_eq!(state.pebbles_remaining, 0);
}

#[test]
fn program_first_can_win_on_init() {
    // 3 % (3 + 1) == 3: the Hard program opens by taking the whole pile.
    let (state, event) = initialize(3, 3, DifficultyLevel::Hard, 1, 0);
    assert_eq!(event, Some(PebblesEvent::Won(Player::Program)));
    assert_eq!(state.winner, Some(Player::Program));
    assert_eq!(state.pebbles_remaining, 0);
}

#[test]
fn oversized_removal_just_empties_pile() {
    // Removing more than remains is allowed up to the cap; the pile floors
    // at zero and the User wins.
    let (mut state, _event) = initialize(5, 10, DifficultyLevel::Easy, 0, 0);
    let event = apply_turn(&mut state, 7, 0);
    assert_eq!(state.pebbles_remaining, 0);
    assert_eq!(state.winner, Some(Player::User));
    assert_eq!(event, PebblesEvent::Won(Player::User));
}

#[test]
fn give_up_overrides_finished_game() {
    // The User wins, then forfeits anyway: the winner flips to the Program
    // and the pile stays where it was.
    let (mut state, _event) = initialize(1, 3, DifficultyLevel::Hard, 0, 0);
    apply_turn(&mut state, 1, 0);
    assert_eq!(state.winner, Some(Player::User));
    give_up(&mut state);
    assert_eq!(state.winner, Some(Player::Program));
    assert_eq!(state.pebbles_remaining, 0);
}

#[test]
fn turn_shrinks_pile_by_at_least_the_removal() {
    let (mut state, _event) = initialize(10, 3, DifficultyLevel::Easy, 0, 0);
    apply_turn(&mut state, 3, 2);
    // 10 - 3 = 7, then the Easy program removes 1 + (2 % 3) = 3.
    assert_eq!(state.pebbles_remaining, 4);
    assert!(state.pebbles_remaining <= 10 - 3);
}

#[test]
fn snapshot_reports_the_state_unchanged() {
    let (state, _event) = initialize(14, 5, DifficultyLevel::Hard, 0, 0);
    let view = snapshot(&state);
    assert_eq!(view.pebbles_count, 14);
    assert_eq!(view.max_pebbles_per_turn, 5);
    assert_eq!(view.pebbles_remaining, 14);
    assert_eq!(view.difficulty, DifficultyLevel::Hard);
    assert_eq!(view.first_player, Player::User);
    assert_eq!(view.winner, None);
}
