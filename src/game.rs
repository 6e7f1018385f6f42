//! The session record and its two entry points: the request dispatcher
//! ([`Game::handle`]) and the reply correlator ([`Game::handle_reply`]).
//!
//! Neither entry point talks to the host. Each returns what the host must do
//! (send, park, reply, schedule), and the host reports back what only it
//! knows: the identity of a message it sent, the current block.
use vstd::prelude::*;
use crate::rules::{can_guess, is_valid_word, resolve_guess, timed_out, valid_word, WORD_LEN};
use crate::types::{
    Action, ActorId, Event, GameResult, GameStatus, GuessResult, InitGameSession, MessageId,
    SessionStatus, State, WordleAction, WordleEvent, GAME_DURATION_BLOCKS, MAX_ATTEMPTS,
};

verus! {

/// What the host knows of the inbound message being handled.
#[derive(Clone, Copy, Debug, PartialEq, Eq, Structural)]
pub struct Context {
    /// Identity of the message.
    pub message_id: MessageId,
    /// Who sent it.
    pub source: ActorId,
    /// The current block height.
    pub block_height: u64,
}

/// Why a request is refused. A refused request leaves the session untouched.
#[derive(Clone, Copy, Debug, PartialEq, Eq, Structural)]
pub enum GameError {
    /// The guessed word is not five lowercase letters.
    InvalidInput,
    /// The request does not fit the state of the game.
    InvalidState,
}

/// What the host must do once a request has been handled.
#[derive(Clone, Debug, PartialEq, Eq)]
pub enum Command {
    /// Send the request to the collaborator, report the identity of that
    /// message through [`Game::message_sent`], then park the current message
    /// until it is woken.
    SendAndWait(WordleAction),
    /// Reply `event` to the sender of the current message.
    Reply(Event),
    /// Send `CheckGameStatus` to this program, to be delivered `delay` blocks
    /// from now; then reply `event` to the sender of the current message.
    ScheduleAndReply { delay: u32, event: Event },
    /// Nothing to send.
    Idle,
}

/// The state of one game session.
///
/// The fields are open to reading; the methods keep them consistent (see
/// [`Game::wf`]).
pub struct Game {
    /// The collaborator that checks the words.
    pub wordle_program_id: ActorId,
    pub game_status: GameStatus,
    /// One entry per answered guess, oldest first.
    pub previous_guesses: Vec<GuessResult>,
    pub session_status: SessionStatus,
    /// The outbound request to the collaborator and the inbound request that
    /// caused it.
    pub msg_ids: (MessageId, MessageId),
}

/// The word that a request guessed; empty for a request of another kind.
pub open spec fn attempted_word(action: Action) -> Seq<char> {
    match action {
        Action::CheckWord(word) => word@,
        _ => Seq::empty(),
    }
}

/// The event that an answer of the collaborator stands for. The attempts
/// left are filled in when the answer is resolved.
pub open spec fn reply_event(reply: WordleEvent) -> Event {
    match reply {
        WordleEvent::GameStarted { .. } => Event::GameStarted,
        WordleEvent::WordChecked { correct_positions, contained_in_word, .. } => {
            Event::WordChecked { correct_positions, contained_in_word, attempts_left: 0 }
        },
    }
}

/// Two guesses hold the same word and the same positions.
pub open spec fn same_guess(a: GuessResult, b: GuessResult) -> bool {
    &&& a.word@ == b.word@
    &&& a.correct_positions@ == b.correct_positions@
    &&& a.contained_in_word@ == b.contained_in_word@
}

/// Translates an answer of the collaborator into the session's own event.
pub fn translate_reply(reply: WordleEvent) -> (r: Event)
    ensures
        r == reply_event(reply),
{
    match reply {
        WordleEvent::GameStarted { .. } => Event::GameStarted,
        WordleEvent::WordChecked { correct_positions, contained_in_word, .. } => {
            Event::WordChecked { correct_positions, contained_in_word, attempts_left: 0 }
        },
    }
}

fn copy_bytes(v: &Vec<u8>) -> (r: Vec<u8>)
    ensures
        r@ == v@,
{
    let mut r: Vec<u8> = Vec::new();
    let mut i: usize = 0;
    while i < v.len()
        invariant
            i <= v@.len(),
            r@ == v@.subrange(0, i as int),
        decreases v@.len() - i,
    {
        r.push(v[i]);
        i = i + 1;
    }
    assert(r@ =~= v@);
    r
}

fn copy_guess(g: &GuessResult) -> (r: GuessResult)
    ensures
        same_guess(r, *g),
{
    GuessResult {
        word: g.word.clone(),
        correct_positions: copy_bytes(&g.correct_positions),
        contained_in_word: copy_bytes(&g.contained_in_word),
    }
}

/// What [`Game::handle`] does with a request that arrives while nothing is
/// outstanding: `post` and `r` are the record and the result.
pub open spec fn handled_waiting(
    pre: Game,
    action: Action,
    ctx: Context,
    post: Game,
    r: Result<Command, GameError>,
) -> bool {
    match action {
        Action::StartGame => if pre.game_status is NotStarted {
            &&& r == Ok::<Command, GameError>(
                Command::SendAndWait(WordleAction::StartGame { user: ctx.source }),
            )
            &&& post == (Game {
                session_status: SessionStatus::MessageSent,
                msg_ids: (pre.msg_ids.0, ctx.message_id),
                ..pre
            })
        } else {
            r == Err::<Command, GameError>(GameError::InvalidState)
        },
        Action::CheckWord(word) => if !valid_word(word@) {
            r == Err::<Command, GameError>(GameError::InvalidInput)
        } else if !can_guess(pre.game_status) {
            r == Err::<Command, GameError>(GameError::InvalidState)
        } else {
            &&& r == Ok::<Command, GameError>(
                Command::SendAndWait(WordleAction::CheckWord { user: ctx.source, word }),
            )
            &&& post == (Game {
                session_status: SessionStatus::MessageSent,
                msg_ids: (pre.msg_ids.0, ctx.message_id),
                ..pre
            })
        },
        Action::CheckGameStatus => if timed_out(pre.game_status, ctx.block_height) {
            &&& r == Ok::<Command, GameError>(
                Command::Reply(Event::GameOver(GameResult::TimeOut)),
            )
            &&& post == (Game {
                game_status: GameStatus::GameOver(GameResult::TimeOut),
                ..pre
            })
        } else {
            &&& r == Ok::<Command, GameError>(Command::Idle)
            &&& post == pre
        },
    }
}

/// What [`Game::handle`] does with a request that arrives while a request
/// to the collaborator is outstanding.
pub open spec fn handled_outstanding(
    pre: Game,
    ctx: Context,
    post: Game,
    r: Result<Command, GameError>,
) -> bool {
    if ctx.message_id == pre.msg_ids.1 {
        &&& r == Ok::<Command, GameError>(Command::Reply(Event::NoReplyReceived))
        &&& post == (Game { session_status: SessionStatus::Waiting, ..pre })
    } else {
        &&& r == Ok::<Command, GameError>(Command::Reply(Event::MessageAlreadySent))
        &&& post == pre
    }
}

/// What [`Game::handle`] does when the parked request `action` resumes with
/// the collaborator's answer `event`.
pub open spec fn handled_resumed(
    pre: Game,
    event: Event,
    action: Action,
    ctx: Context,
    post: Game,
    r: Result<Command, GameError>,
) -> bool {
    match event {
        Event::GameStarted => {
            &&& r == Ok::<Command, GameError>(
                Command::ScheduleAndReply {
                    delay: GAME_DURATION_BLOCKS,
                    event: Event::GameStarted,
                },
            )
            &&& post == (Game {
                game_status: GameStatus::InProgress {
                    attempts: 0,
                    start_time: ctx.block_height,
                },
                session_status: SessionStatus::Waiting,
                ..pre
            })
        },
        Event::WordChecked { correct_positions, contained_in_word, .. } => if pre.game_status
            is InProgress {
            &&& post.game_status == resolve_guess(
                pre.game_status,
                correct_positions@.len(),
            )
            &&& post.session_status is Waiting
            &&& post.msg_ids == pre.msg_ids
            &&& post.previous_guesses@.len() == pre.previous_guesses@.len() + 1
            &&& post.previous_guesses@.drop_last() == pre.previous_guesses@
            &&& post.previous_guesses@.last().word@ == attempted_word(action)
            &&& post.previous_guesses@.last().correct_positions@
                == correct_positions@
            &&& post.previous_guesses@.last().contained_in_word@
                == contained_in_word@
            &&& post.game_status matches GameStatus::GameOver(result) ==> r
                == Ok::<Command, GameError>(Command::Reply(Event::GameOver(result)))
            &&& post.game_status matches GameStatus::InProgress { attempts, .. }
                ==> r matches Ok(
                Command::Reply(
                    Event::WordChecked {
                        correct_positions: cp,
                        contained_in_word: ciw,
                        attempts_left,
                    },
                ),
            ) && cp@ == correct_positions@ && ciw@ == contained_in_word@ && attempts_left
                == MAX_ATTEMPTS - attempts
        } else {
            r == Err::<Command, GameError>(GameError::InvalidState)
        },
        _ => {
            &&& r == Ok::<Command, GameError>(Command::Idle)
            &&& post == (Game { session_status: SessionStatus::Waiting, ..pre })
        },
    }
}

/// What [`Game::handle`] does: `post` and `r` are the record and the result
/// after `action` arrived, as `ctx` describes it, at the record `pre`. A
/// refused request leaves the record as it was.
pub open spec fn handled(
    pre: Game,
    action: Action,
    ctx: Context,
    post: Game,
    r: Result<Command, GameError>,
) -> bool {
    &&& post.wordle_program_id == pre.wordle_program_id
    &&& r is Err ==> post == pre
    &&& match pre.session_status {
        SessionStatus::Waiting => handled_waiting(pre, action, ctx, post, r),
        SessionStatus::MessageSent => handled_outstanding(pre, ctx, post, r),
        SessionStatus::ReplyReceived(event) => handled_resumed(pre, event, action, ctx, post, r),
    }
}

/// What [`Game::handle_reply`] does with the answer `reply` to the message
/// `reply_to`: `post` and `r` are the record and the request to wake.
pub open spec fn reply_taken(
    pre: Game,
    reply_to: MessageId,
    reply: WordleEvent,
    post: Game,
    r: Option<MessageId>,
) -> bool {
    if reply_to == pre.msg_ids.0 && pre.session_status is MessageSent {
        &&& r == Some(pre.msg_ids.1)
        &&& post == (Game {
            session_status: SessionStatus::ReplyReceived(reply_event(reply)),
            ..pre
        })
    } else {
        &&& r is None
        &&& post == pre
    }
}

impl Game {
    /// The record is consistent: a running game has attempts left, and a game
    /// that has not started has no guesses.
    pub open spec fn wf(&self) -> bool {
        &&& self.game_status matches GameStatus::InProgress { attempts, .. } ==> attempts
            < MAX_ATTEMPTS
        &&& self.game_status is NotStarted ==> self.previous_guesses@.len() == 0
    }

    /// A new session with the collaborator `payload.wordle_program_id`: the
    /// game has not started and nothing is outstanding.
    pub fn init(payload: InitGameSession) -> (r: Game)
        ensures
            r.wf(),
            r.wordle_program_id == payload.wordle_program_id,
            r.game_status is NotStarted,
            r.previous_guesses@.len() == 0,
            r.session_status is Waiting,
            r.msg_ids == (MessageId { hi: 0, lo: 0 }, MessageId { hi: 0, lo: 0 }),
    {
        Game {
            wordle_program_id: payload.wordle_program_id,
            game_status: GameStatus::NotStarted,
            previous_guesses: Vec::new(),
            session_status: SessionStatus::Waiting,
            msg_ids: (MessageId::zero(), MessageId::zero()),
        }
    }

    /// A snapshot of the collaborator, the game status and the guesses.
    pub fn state(&self) -> (r: State)
        ensures
            r.wordle_program_id == self.wordle_program_id,
            r.game_status == self.game_status,
            r.previous_guesses@.len() == self.previous_guesses@.len(),
            forall|i: int|
                0 <= i < r.previous_guesses@.len() ==> same_guess(
                    #[trigger] r.previous_guesses@[i],
                    self.previous_guesses@[i],
                ),
    {
        let mut guesses: Vec<GuessResult> = Vec::new();
        let mut i: usize = 0;
        while i < self.previous_guesses.len()
            invariant
                i <= self.previous_guesses@.len(),
                guesses@.len() == i,
                forall|j: int|
                    0 <= j < i ==> same_guess(#[trigger] guesses@[j], self.previous_guesses@[j]),
            decreases self.previous_guesses@.len() - i,
        {
            guesses.push(copy_guess(&self.previous_guesses[i]));
            i = i + 1;
        }
        State {
            wordle_program_id: self.wordle_program_id,
            game_status: self.game_status,
            previous_guesses: guesses,
        }
    }

    /// Records the identity of the request just sent to the collaborator.
    pub fn message_sent(&mut self, outbound: MessageId)
        requires
            old(self).wf(),
        ensures
            final(self).wf(),
            *final(self) == (Game { msg_ids: (outbound, old(self).msg_ids.1), ..*old(self) }),
    {
        self.msg_ids = (outbound, self.msg_ids.1);
    }

    /// Whether an answer to `reply_to` is the one the session waits for.
    pub fn awaits_reply(&self, reply_to: MessageId) -> (r: bool)
        ensures
            r == (reply_to == self.msg_ids.0 && self.session_status is MessageSent),
    {
        reply_to == self.msg_ids.0 && match self.session_status {
            SessionStatus::MessageSent => true,
            _ => false,
        }
    }

    /// Takes an answer of the collaborator to the message `reply_to`. Where
    /// it is the answer the session waits for, it is kept for the parked
    /// request, whose identity is returned so that the host wakes it; any
    /// other answer is dropped.
    pub fn handle_reply(&mut self, reply_to: MessageId, reply: WordleEvent) -> (r: Option<
        MessageId,
    >)
        requires
            old(self).wf(),
        ensures
            final(self).wf(),
            reply_taken(*old(self), reply_to, reply, *final(self), r),
    {
        if self.awaits_reply(reply_to) {
            self.session_status = SessionStatus::ReplyReceived(translate_reply(reply));
            Some(self.msg_ids.1)
        } else {
            None
        }
    }
    /// Handles the inbound request `action`, which arrived as described by
    /// `ctx`, and says what the host must do next.
    ///
    /// While the session waits for nothing, a request to start or a guess is
    /// checked and forwarded to the collaborator, and the request is parked;
    /// a status check ends a running game whose time is up. While an answer
    /// is outstanding, every other request is turned away. When the parked
    /// request resumes with the collaborator's answer, the answer is resolved.
    /// A refused request changes nothing.
    pub fn handle(&mut self, action: Action, ctx: Context) -> (r: Result<Command, GameError>)
        requires
            old(self).wf(),
        ensures
            final(self).wf(),
            handled(*old(self), action, ctx, *final(self), r),
    {
        match self.session_status {
            SessionStatus::Waiting => {
                match action {
                    Action::StartGame => {
                        match self.game_status {
                            GameStatus::NotStarted => {},
                            _ => {
                                return Err(GameError::InvalidState);
                            },
                        }
                        self.session_status = SessionStatus::MessageSent;
                        self.msg_ids = (self.msg_ids.0, ctx.message_id);
                        Ok(Command::SendAndWait(WordleAction::StartGame { user: ctx.source }))
                    },
                    Action::CheckWord(word) => {
                        if !is_valid_word(&word) {
                            return Err(GameError::InvalidInput);
                        }
                        match self.game_status {
                            GameStatus::InProgress { attempts, .. } => {
                                if attempts >= MAX_ATTEMPTS {
                                    return Err(GameError::InvalidState);
                                }
                            },
                            _ => {
                                return Err(GameError::InvalidState);
                            },
                        }
                        self.session_status = SessionStatus::MessageSent;
                        self.msg_ids = (self.msg_ids.0, ctx.message_id);
                        Ok(Command::SendAndWait(WordleAction::CheckWord { user: ctx.source, word }))
                    },
                    Action::CheckGameStatus => {
                        if let GameStatus::InProgress { start_time, .. } = self.game_status {
                            if ctx.block_height >= start_time && ctx.block_height - start_time
                                >= GAME_DURATION_BLOCKS as u64 {
                                self.game_status = GameStatus::GameOver(GameResult::TimeOut);
                                return Ok(Command::Reply(Event::GameOver(GameResult::TimeOut)));
                            }
                        }
                        Ok(Command::Idle)
                    },
                }
            },
            SessionStatus::MessageSent => {
                if ctx.message_id == self.msg_ids.1 {
                    self.session_status = SessionStatus::Waiting;
                    Ok(Command::Reply(Event::NoReplyReceived))
                } else {
                    Ok(Command::Reply(Event::MessageAlreadySent))
                }
            },
            SessionStatus::ReplyReceived(_) => {
                let mut taken = SessionStatus::Waiting;
                core::mem::swap(&mut self.session_status, &mut taken);
                match taken {
                    SessionStatus::ReplyReceived(Event::GameStarted) => {
                        self.game_status = GameStatus::InProgress {
                            attempts: 0,
                            start_time: ctx.block_height,
                        };
                        Ok(
                            Command::ScheduleAndReply {
                                delay: GAME_DURATION_BLOCKS,
                                event: Event::GameStarted,
                            },
                        )
                    },
                    SessionStatus::ReplyReceived(
                        Event::WordChecked { correct_positions, contained_in_word, attempts_left },
                    ) => {
                        let (attempts, start_time) = match self.game_status {
                            GameStatus::InProgress { attempts, start_time } => {
                                (attempts, start_time)
                            },
                            _ => {
                                self.session_status = SessionStatus::ReplyReceived(
                                    Event::WordChecked {
                                        correct_positions,
                                        contained_in_word,
                                        attempts_left,
                                    },
                                );
                                return Err(GameError::InvalidState);
                            },
                        };
                        let reply_correct = copy_bytes(&correct_positions);
                        let reply_contained = copy_bytes(&contained_in_word);
                        let all_in_place = correct_positions.len() == WORD_LEN;
                        let word = match action {
                            Action::CheckWord(word) => word,
                            _ => String::new(),
                        };
                        let ghost before = self.previous_guesses@;
                        self.previous_guesses.push(
                            GuessResult { word, correct_positions, contained_in_word },
                        );
                        assert(self.previous_guesses@.drop_last() =~= before);
                        let made: u8 = attempts + 1;
                        if all_in_place {
                            self.game_status = GameStatus::GameOver(GameResult::Win);
                            Ok(Command::Reply(Event::GameOver(GameResult::Win)))
                        } else if made >= MAX_ATTEMPTS {
                            self.game_status = GameStatus::GameOver(GameResult::Lose);
                            Ok(Command::Reply(Event::GameOver(GameResult::Lose)))
                        } else {
                            self.game_status = GameStatus::InProgress {
                                attempts: made,
                                start_time,
                            };
                            Ok(
                                Command::Reply(
                                    Event::WordChecked {
                                        correct_positions: reply_correct,
                                        contained_in_word: reply_contained,
                                        attempts_left: MAX_ATTEMPTS - made,
                                    },
                                ),
                            )
                        }
                    },
                    _ => {
                        // The answer carries no event that a request waits for.
                        Ok(Command::Idle)
                    },
                }
            },
        }
    }
}

} // verus!
