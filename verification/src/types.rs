//! The data the game engine works on: players, difficulties, events, and the
//! state of one game.

use vstd::prelude::*;

verus! {

/// One of the two sides that alternately remove pebbles from the pile.
#[derive(Clone, Copy, Debug, PartialEq, Eq, Structural)]
pub enum Player {
    User,
    Program,
}

/// The policy the program uses to pick its own moves.
#[derive(Clone, Copy, Debug, PartialEq, Eq, Structural)]
pub enum DifficultyLevel {
    Easy,
    Hard,
}

/// A response the engine emits after it has processed a request.
#[derive(Clone, Copy, Debug, PartialEq, Eq, Structural)]
pub enum PebblesEvent {
    CounterTurn(u32),
    Won(Player),
}

/// The whole state of one game. A single instance lives for the whole game;
/// `restart` replaces it wholesale.
#[derive(Clone, Copy, Debug)]
pub struct GameState {
    /// The pile size at the last (re)initialization; never changes in between.
    pub pebbles_count: u32,
    /// The inclusive cap on what one User turn may remove.
    pub max_pebbles_per_turn: u32,
    /// The current pile; never grows within a game, floored at zero.
    pub pebbles_remaining: u32,
    /// The program's move policy for this game.
    pub difficulty: DifficultyLevel,
    /// The side the coin flip put first for this game.
    pub first_player: Player,
    /// `None` while the game is in progress; set when the pile empties or the
    /// User forfeits.
    pub winner: Option<Player>,
}

impl GameState {
    /// Well-formedness: what (re)initialization establishes and every turn
    /// preserves. The cap stays below `u32::MAX` so that the Hard policy's
    /// `max_pebbles_per_turn + 1` fits in a `u32`.
    pub open spec fn wf(self) -> bool {
        &&& 1 <= self.pebbles_count
        &&& 1 <= self.max_pebbles_per_turn
        &&& self.max_pebbles_per_turn < u32::MAX
        &&& self.pebbles_remaining <= self.pebbles_count
    }
}

} // verus!
