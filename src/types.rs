//! The values that the session exchanges with its callers and its collaborator.
use vstd::prelude::*;

verus! {

/// Number of guesses a player gets.
pub const MAX_ATTEMPTS: u8 = 6;

/// Length of a game, in blocks of the host.
pub const GAME_DURATION_BLOCKS: u32 = 200;

/// Identity of a program or a user of the host (32 bytes, as two halves).
#[derive(Clone, Copy, Debug, PartialEq, Eq, Structural, Hash)]
pub struct ActorId {
    pub hi: u128,
    pub lo: u128,
}

/// Identity of one message of the host (32 bytes, as two halves).
#[derive(Clone, Copy, Debug, PartialEq, Eq, Structural, Hash)]
pub struct MessageId {
    pub hi: u128,
    pub lo: u128,
}

impl MessageId {
    /// The all-zero identity, which no real message carries.
    pub fn zero() -> (r: MessageId)
        ensures
            r.hi == 0 && r.lo == 0,
    {
        MessageId { hi: 0, lo: 0 }
    }
}

/// The payload a session is created with.
#[derive(Clone, Copy, Debug, PartialEq, Eq, Structural)]
pub struct InitGameSession {
    pub wordle_program_id: ActorId,
}

/// An inbound request.
#[derive(Clone, Debug, PartialEq, Eq)]
pub enum Action {
    StartGame,
    CheckWord(String),
    CheckGameStatus,
}

/// How a finished game ended.
#[derive(Clone, Copy, Debug, PartialEq, Eq, Structural)]
pub enum GameResult {
    Win,
    Lose,
    TimeOut,
}

/// A reply to the caller, or an answer of the collaborator translated into
/// the session's own terms.
#[derive(Clone, Debug, PartialEq, Eq)]
pub enum Event {
    GameStarted,
    WordChecked { correct_positions: Vec<u8>, contained_in_word: Vec<u8>, attempts_left: u8 },
    GameOver(GameResult),
    NoReplyReceived,
    MessageAlreadySent,
}

/// Where the game stands.
#[derive(Clone, Copy, Debug, PartialEq, Eq, Structural)]
pub enum GameStatus {
    NotStarted,
    InProgress { attempts: u8, start_time: u64 },
    GameOver(GameResult),
}

impl Default for GameStatus {
    fn default() -> (r: GameStatus)
        ensures
            r is NotStarted,
    {
        GameStatus::NotStarted
    }
}

/// One resolved guess: the word and the positions the collaborator reported.
#[derive(Clone, Debug, PartialEq, Eq)]
pub struct GuessResult {
    pub word: String,
    pub correct_positions: Vec<u8>,
    pub contained_in_word: Vec<u8>,
}

/// Where the exchange with the collaborator stands.
#[derive(Clone, Debug, PartialEq, Eq)]
pub enum SessionStatus {
    Waiting,
    MessageSent,
    ReplyReceived(Event),
}

impl Default for SessionStatus {
    fn default() -> (r: SessionStatus)
        ensures
            r is Waiting,
    {
        SessionStatus::Waiting
    }
}

/// A read-only snapshot of a session.
#[derive(Clone, Debug, PartialEq, Eq)]
pub struct State {
    pub wordle_program_id: ActorId,
    pub game_status: GameStatus,
    pub previous_guesses: Vec<GuessResult>,
}

/// A request to the collaborator.
#[derive(Clone, Debug, PartialEq, Eq)]
pub enum WordleAction {
    StartGame { user: ActorId },
    CheckWord { user: ActorId, word: String },
}

/// An answer of the collaborator.
#[derive(Clone, Debug, PartialEq, Eq)]
pub enum WordleEvent {
    GameStarted { user: ActorId },
    WordChecked { user: ActorId, correct_positions: Vec<u8>, contained_in_word: Vec<u8> },
}

} // verus!
