//! Coordination of one word-guessing game session whose word matching is
//! done by a separate collaborator program.
//!
//! The session is a state machine: [`Game::handle`] decides what to do with an
//! inbound request, [`Game::handle_reply`] correlates the collaborator's answer
//! with the parked request, and the host performs the returned [`Command`].
pub mod types;
pub mod rules;
pub mod game;
pub mod laws;

pub use game::{Command, Context, Game, GameError};
pub use types::{
    Action, ActorId, Event, GameResult, GameStatus, GuessResult, InitGameSession, MessageId,
    SessionStatus, State, WordleAction, WordleEvent, GAME_DURATION_BLOCKS, MAX_ATTEMPTS,
};
