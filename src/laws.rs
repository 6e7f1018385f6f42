//! Properties of the session that hold across requests, proved from the
//! contracts of [`Game::handle`](crate::game::Game::handle) and
//! [`Game::handle_reply`](crate::game::Game::handle_reply).
use vstd::prelude::*;
use crate::game::{handled, reply_event, reply_taken, Command, Context, Game, GameError};
use crate::rules::{resolve_guess, WORD_LEN};
use crate::types::{
    Action, Event, GameResult, GameStatus, MessageId, SessionStatus, WordleEvent,
    GAME_DURATION_BLOCKS,
    MAX_ATTEMPTS,
};

verus! {

/// Asking to start a game that has already started or ended is refused, and
/// the session is left as it was.
pub proof fn lemma_restart_refused(
    pre: Game,
    ctx: Context,
    post: Game,
    r: Result<Command, GameError>,
)
    requires
        pre.session_status is Waiting,
        pre.game_status !is NotStarted,
        handled(pre, Action::StartGame, ctx, post, r),
    ensures
        r == Err::<Command, GameError>(GameError::InvalidState),
        post == pre,
{
}

/// A guess that is not five letters long, or holds a character other than a
/// lowercase letter, is refused as malformed, and the session is left as it
/// was.
pub proof fn lemma_malformed_word_refused(
    pre: Game,
    word: String,
    ctx: Context,
    post: Game,
    r: Result<Command, GameError>,
)
    requires
        pre.session_status is Waiting,
        word@.len() != WORD_LEN || exists|i: int|
            0 <= i < word@.len() && !('a' <= #[trigger] word@[i] <= 'z'),
        handled(pre, Action::CheckWord(word), ctx, post, r),
    ensures
        r == Err::<Command, GameError>(GameError::InvalidInput),
        post == pre,
{
}

/// Resolving the answer to a guess of a running game applies the rules of
/// the game and records exactly one guess. With
/// [`lemma_six_misses_lose`](crate::rules::lemma_six_misses_lose), six
/// answers in a row without a full match end the game lost with six guesses
/// on record.
pub proof fn lemma_answer_records_one_guess(
    pre: Game,
    event: Event,
    action: Action,
    ctx: Context,
    post: Game,
    r: Result<Command, GameError>,
)
    requires
        pre.game_status is InProgress,
        pre.session_status == SessionStatus::ReplyReceived(event),
        event is WordChecked,
        handled(pre, action, ctx, post, r),
    ensures
        post.game_status == resolve_guess(pre.game_status, event->correct_positions@.len()),
        post.previous_guesses@.len() == pre.previous_guesses@.len() + 1,
        post.session_status is Waiting,
{
}

/// An answer with all five letters in place ends a running game as won,
/// whatever the number of attempts made before it.
pub proof fn lemma_full_match_wins(
    pre: Game,
    correct_positions: Vec<u8>,
    contained_in_word: Vec<u8>,
    attempts_left: u8,
    action: Action,
    ctx: Context,
    post: Game,
    r: Result<Command, GameError>,
)
    requires
        pre.game_status matches GameStatus::InProgress { attempts, .. } && attempts
            <= MAX_ATTEMPTS,
        pre.session_status == SessionStatus::ReplyReceived(
            Event::WordChecked { correct_positions, contained_in_word, attempts_left },
        ),
        correct_positions@.len() == WORD_LEN,
        handled(pre, action, ctx, post, r),
    ensures
        post.game_status == GameStatus::GameOver(GameResult::Win),
        r == Ok::<Command, GameError>(Command::Reply(Event::GameOver(GameResult::Win))),
{
}

/// A status check before the game's time is up leaves the game status as it
/// was.
pub proof fn lemma_early_check_keeps_status(
    pre: Game,
    ctx: Context,
    post: Game,
    r: Result<Command, GameError>,
)
    requires
        pre.session_status !is ReplyReceived,
        pre.game_status matches GameStatus::InProgress { start_time, .. } ==> ctx.block_height
            < start_time + GAME_DURATION_BLOCKS,
        handled(pre, Action::CheckGameStatus, ctx, post, r),
    ensures
        post.game_status == pre.game_status,
{
}

/// A status check at or after the end of a running game's time ends it as
/// timed out, and says so.
pub proof fn lemma_late_check_times_out(
    pre: Game,
    ctx: Context,
    post: Game,
    r: Result<Command, GameError>,
)
    requires
        pre.session_status is Waiting,
        pre.game_status matches GameStatus::InProgress { start_time, .. } && ctx.block_height
            >= start_time + GAME_DURATION_BLOCKS,
        handled(pre, Action::CheckGameStatus, ctx, post, r),
    ensures
        post.game_status == GameStatus::GameOver(GameResult::TimeOut),
        r == Ok::<Command, GameError>(Command::Reply(Event::GameOver(GameResult::TimeOut))),
{
}

/// While a request to the collaborator is outstanding, any other request is
/// told so and changes nothing: the awaited answer, when it comes, still
/// resumes the request that caused it.
pub proof fn lemma_concurrent_request_turned_away(
    pre: Game,
    action: Action,
    ctx: Context,
    mid: Game,
    r: Result<Command, GameError>,
    reply: WordleEvent,
    post: Game,
    woken: Option<MessageId>,
)
    requires
        pre.session_status is MessageSent,
        ctx.message_id != pre.msg_ids.1,
        handled(pre, action, ctx, mid, r),
        reply_taken(mid, pre.msg_ids.0, reply, post, woken),
    ensures
        r == Ok::<Command, GameError>(Command::Reply(Event::MessageAlreadySent)),
        mid == pre,
        woken == Some(pre.msg_ids.1),
        post.session_status == SessionStatus::ReplyReceived(reply_event(reply)),
{
}

} // verus!
