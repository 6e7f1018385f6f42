//! The rules of the game itself, apart from the exchange with the collaborator.
use vstd::prelude::*;
use vstd::string::*;
use crate::types::{GameResult, GameStatus, GAME_DURATION_BLOCKS, MAX_ATTEMPTS};

verus! {

/// Number of letters in a word.
pub const WORD_LEN: usize = 5;

/// A guess is exactly five lowercase ASCII letters.
pub open spec fn valid_word(w: Seq<char>) -> bool {
    &&& w.len() == WORD_LEN
    &&& forall|i: int| 0 <= i < w.len() ==> 'a' <= #[trigger] w[i] <= 'z'
}

/// A guess may be sent while the game runs and has attempts left.
pub open spec fn can_guess(status: GameStatus) -> bool {
    status matches GameStatus::InProgress { attempts, .. } && attempts < MAX_ATTEMPTS
}

/// A running game has run out of time at block `now`.
pub open spec fn timed_out(status: GameStatus, now: u64) -> bool {
    status matches GameStatus::InProgress { start_time, .. } && now >= start_time
        + GAME_DURATION_BLOCKS
}

/// The status after a guess of a running game was answered with `correct`
/// letters in the right place; a game that does not run is left as it is.
pub open spec fn resolve_guess(status: GameStatus, correct: nat) -> GameStatus {
    match status {
        GameStatus::InProgress { attempts, start_time } => {
            if correct == WORD_LEN {
                GameStatus::GameOver(GameResult::Win)
            } else if attempts + 1 >= MAX_ATTEMPTS {
                GameStatus::GameOver(GameResult::Lose)
            } else {
                GameStatus::InProgress { attempts: (attempts + 1) as u8, start_time }
            }
        },
        _ => status,
    }
}

/// The status after the answers `correct` were resolved one after another.
pub open spec fn play(status: GameStatus, correct: Seq<nat>) -> GameStatus
    decreases correct.len(),
{
    if correct.len() == 0 {
        status
    } else {
        resolve_guess(play(status, correct.drop_last()), correct.last())
    }
}

/// How many of the answers `correct` found the game running, and so were
/// recorded as a guess.
pub open spec fn recorded(status: GameStatus, correct: Seq<nat>) -> nat
    decreases correct.len(),
{
    if correct.len() == 0 {
        0
    } else {
        recorded(status, correct.drop_last()) + if play(status, correct.drop_last()) is InProgress {
            1nat
        } else {
            0nat
        }
    }
}

/// The game a fresh start leads to.
pub open spec fn started(start_time: u64) -> GameStatus {
    GameStatus::InProgress { attempts: 0, start_time }
}

proof fn lemma_misses_keep_running(start_time: u64, correct: Seq<nat>)
    requires
        correct.len() < MAX_ATTEMPTS,
        forall|i: int| 0 <= i < correct.len() ==> correct[i] != WORD_LEN,
    ensures
        play(started(start_time), correct) == (GameStatus::InProgress {
            attempts: correct.len() as u8,
            start_time,
        }),
        recorded(started(start_time), correct) == correct.len(),
    decreases correct.len(),
{
    if correct.len() > 0 {
        lemma_misses_keep_running(start_time, correct.drop_last());
    }
}

/// A game that receives six answers in a row, none with all letters in
/// place, accepts each of them as a guess and ends lost, with six guesses on
/// record.
pub proof fn lemma_six_misses_lose(start_time: u64, correct: Seq<nat>)
    requires
        correct.len() == MAX_ATTEMPTS,
        forall|i: int| 0 <= i < correct.len() ==> correct[i] != WORD_LEN,
    ensures
        forall|k: int|
            0 <= k < correct.len() ==> can_guess(
                #[trigger] play(started(start_time), correct.take(k)),
            ),
        play(started(start_time), correct) == GameStatus::GameOver(GameResult::Lose),
        recorded(started(start_time), correct) == MAX_ATTEMPTS,
{
    assert forall|k: int| 0 <= k < correct.len() implies can_guess(
        #[trigger] play(started(start_time), correct.take(k)),
    ) by {
        lemma_misses_keep_running(start_time, correct.take(k));
    }
    assert(correct.drop_last() =~= correct.take(5));
    lemma_misses_keep_running(start_time, correct.take(5));
}

/// Whether `word` may be sent as a guess.
pub fn is_valid_word(word: &String) -> (r: bool)
    ensures
        r == valid_word(word@),
{
    let s = word.as_str();
    let n = s.unicode_len();
    if n != WORD_LEN {
        return false;
    }
    let mut i: usize = 0;
    while i < n
        invariant
            n == s@.len(),
            s@ == word@,
            i <= n,
            forall|j: int| 0 <= j < i ==> 'a' <= #[trigger] s@[j] <= 'z',
        decreases n - i,
    {
        let c = s.get_char(i);
        if !('a' <= c && c <= 'z') {
            return false;
        }
        i = i + 1;
    }
    true
}

} // verus!
