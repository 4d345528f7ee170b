//! The values that travel between a caller and the game.
use vstd::prelude::*;

verus! {

/// How the automated player picks its moves.
#[derive(Clone, Copy, Debug, PartialEq, Eq, Structural)]
pub enum DifficultyLevel {
    /// A uniformly drawn legal move.
    Easy,
    /// The winning move whenever one exists.
    Hard,
}

/// The two parties of a game.
#[derive(Clone, Copy, Debug, PartialEq, Eq, Structural)]
pub enum Player {
    User,
    Program,
}

/// The configuration that starts a session.
#[derive(Clone, Copy, Debug, PartialEq, Eq, Structural)]
pub struct PebblesInit {
    pub difficulty: DifficultyLevel,
    pub pebbles_count: u32,
    pub max_pebbles_per_turn: u32,
}

/// A request on a running session.
#[derive(Clone, Copy, Debug, PartialEq, Eq, Structural)]
pub enum PebblesAction {
    /// The user removes this many pebbles.
    Turn(u32),
    /// The user concedes.
    GiveUp,
    /// The session is replaced by a fresh one with this configuration.
    Restart { difficulty: DifficultyLevel, pebbles_count: u32, max_pebbles_per_turn: u32 },
}

/// A result reported back to the caller.
#[derive(Clone, Copy, Debug, PartialEq, Eq, Structural)]
pub enum PebblesEvent {
    /// The automated player removed this many pebbles.
    CounterTurn(u32),
    /// The game ended with this winner.
    Won(Player),
}

/// The record of one session.
#[derive(Clone, Copy, Debug, PartialEq, Eq)]
pub struct GameState {
    pub pebbles_count: u32,
    pub max_pebbles_per_turn: u32,
    pub pebbles_remaining: u32,
    pub difficulty: DifficultyLevel,
    pub first_player: Player,
    pub winner: Option<Player>,
}

/// Why a request was refused.
#[derive(Clone, Copy, Debug, PartialEq, Eq, Structural)]
pub enum GameError {
    /// A pile size or a per-turn cap of zero.
    InvalidConfig,
    /// A turn outside `1..=max_pebbles_per_turn`, or larger than the pile.
    InvalidMove,
    /// A turn on a game that already has a winner.
    GameOver,
    /// A request before any session was created.
    NoSession,
}

impl GameState {
    /// The session invariant: a positive configuration, a pile no larger than
    /// it started, and a winner recorded once the pile is empty.
    pub open spec fn wf(self) -> bool {
        &&& self.pebbles_count > 0
        &&& self.max_pebbles_per_turn > 0
        &&& self.pebbles_remaining <= self.pebbles_count
        &&& self.pebbles_remaining == 0 ==> self.winner is Some
    }
}

} // verus!
