//! A one-pile subtraction game played against an automated opponent: the
//! session state machine, the move policies and the laws they obey.
pub mod game;
pub mod io;
pub mod strategy;

pub use game::{handle, init, state};
pub use io::{DifficultyLevel, GameError, GameState, PebblesAction, PebblesEvent, PebblesInit, Player};
pub use strategy::{choose_move, draw_first_player, find_best_move, random_u32_from_hash};
