use game_session::game::translate_reply;
use game_session::rules::is_valid_word;
use game_session::{
    Action, ActorId, Command, Context, Event, Game, GameError, GameResult, GameStatus,
    InitGameSession, MessageId, SessionStatus, WordleAction, WordleEvent, GAME_DURATION_BLOCKS,
};

const USER: u128 = 10;

fn actor(n: u128) -> ActorId {
    ActorId { hi: 0, lo: n }
}

fn message(n: u128) -> MessageId {
    MessageId { hi: 0, lo: n }
}

/// A stand-in for the host and the collaborator: numbers messages, answers
/// requests against a secret word and wakes the parked request.
struct Host {
    game: Game,
    secret: String,
    next_id: u128,
    block: u64,
}

fn answer(secret: &str, guess: &str) -> (Vec<u8>, Vec<u8>) {
    let s: Vec<char> = secret.chars().collect();
    let g: Vec<char> = guess.chars().collect();
    let mut correct = Vec::new();
    let mut contained = Vec::new();
    for (i, c) in g.iter().enumerate() {
        if s[i] == *c {
            correct.push(i as u8);
        } else if s.contains(c) {
            contained.push(i as u8);
        }
    }
    (correct, contained)
}

impl Host {
    fn new(secret: &str) -> Host {
        Host {
            game: Game::init(InitGameSession { wordle_program_id: actor(1) }),
            secret: secret.to_string(),
            next_id: 100,
            block: 1,
        }
    }

    fn fresh_id(&mut self) -> MessageId {
        self.next_id += 1;
        message(self.next_id)
    }

    fn ctx(&self, id: MessageId) -> Context {
        Context { message_id: id, source: actor(USER), block_height: self.block }
    }

    /// Sends `action` and, where it is forwarded, lets the collaborator
    /// answer it and resumes it.
    fn send(&mut self, action: Action) -> Result<Command, GameError> {
        let inbound = self.fresh_id();
        let first = self.game.handle(action.clone(), self.ctx(inbound))?;
        let Command::SendAndWait(request) = first else {
            return Ok(first);
        };
        let outbound = self.fresh_id();
        self.game.message_sent(outbound);
        let reply = match request {
            WordleAction::StartGame { user } => WordleEvent::GameStarted { user },
            WordleAction::CheckWord { user, word } => {
                let (correct_positions, contained_in_word) = answer(&self.secret, &word);
                WordleEvent::WordChecked { user, correct_positions, contained_in_word }
            }
        };
        let woken = self.game.handle_reply(outbound, reply);
        assert_eq!(woken, Some(inbound));
        self.game.handle(action, self.ctx(inbound))
    }

    fn status(&self) -> GameStatus {
        self.game.state().game_status
    }
}

fn check(word: &str) -> Action {
    Action::CheckWord(word.to_string())
}

#[test]
fn test_game_start_and_lose() {
    let mut host = Host::new("horse");
    assert_eq!(host.send(Action::StartGame), Ok(Command::ScheduleAndReply {
        delay: GAME_DURATION_BLOCKS,
        event: Event::GameStarted,
    }));
    let mut last = None;
    for _ in 0..6 {
        last = Some(host.send(check("wrong")));
    }
    assert_eq!(last, Some(Ok(Command::Reply(Event::GameOver(GameResult::Lose)))));
    assert_eq!(host.status(), GameStatus::GameOver(GameResult::Lose));
    assert_eq!(host.game.state().previous_guesses.len(), 6);
}

#[test]
fn test_game_timeout() {
    let mut host = Host::new("horse");
    host.send(Action::StartGame).unwrap();
    host.block = 3000;
    assert_eq!(
        host.send(Action::CheckGameStatus),
        Ok(Command::Reply(Event::GameOver(GameResult::TimeOut)))
    );
    assert_eq!(host.status(), GameStatus::GameOver(GameResult::TimeOut));
}

#[test]
fn test_game_win() {
    let mut host = Host::new("horse");
    host.send(Action::StartGame).unwrap();
    host.send(check("world")).unwrap();
    host.send(check("human")).unwrap();
    host.send(check("house")).unwrap();
    host.send(check("horse")).unwrap();
    assert_eq!(host.status(), GameStatus::GameOver(GameResult::Win));
}

#[test]
fn fresh_session_has_not_started() {
    let game = Game::init(InitGameSession { wordle_program_id: actor(7) });
    let state = game.state();
    assert_eq!(state.game_status, GameStatus::NotStarted);
    assert_eq!(state.wordle_program_id, actor(7));
    assert!(state.previous_guesses.is_empty());
    assert_eq!(game.session_status, SessionStatus::Waiting);
    assert_eq!(GameStatus::default(), GameStatus::NotStarted);
    assert_eq!(SessionStatus::default(), SessionStatus::Waiting);
}

#[test]
fn start_twice_is_refused_without_change() {
    let mut host = Host::new("horse");
    host.send(Action::StartGame).unwrap();
    let before = host.game.state();
    assert_eq!(host.send(Action::StartGame), Err(GameError::InvalidState));
    assert_eq!(host.game.state(), before);
    assert_eq!(host.game.session_status, SessionStatus::Waiting);
}

#[test]
fn malformed_words_are_refused_without_change() {
    let mut host = Host::new("horse");
    host.send(Action::StartGame).unwrap();
    let before = host.game.state();
    for word in ["", "word", "horses", "Horse", "hor5e", "hors\u{e9}"] {
        assert_eq!(host.send(check(word)), Err(GameError::InvalidInput));
        assert_eq!(host.game.state(), before);
    }
}

#[test]
fn malformed_word_beats_wrong_state() {
    let mut host = Host::new("horse");
    assert_eq!(host.send(check("HORSE")), Err(GameError::InvalidInput));
    assert_eq!(host.send(check("horse")), Err(GameError::InvalidState));
    assert_eq!(host.status(), GameStatus::NotStarted);
}

#[test]
fn word_validity() {
    assert!(is_valid_word(&"abcde".to_string()));
    assert!(is_valid_word(&"zzzzz".to_string()));
    assert!(!is_valid_word(&"abcd".to_string()));
    assert!(!is_valid_word(&"abcdef".to_string()));
    assert!(!is_valid_word(&"abcdE".to_string()));
    assert!(!is_valid_word(&"ab de".to_string()));
}

#[test]
fn a_miss_reports_positions_and_attempts_left() {
    let mut host = Host::new("horse");
    host.send(Action::StartGame).unwrap();
    assert_eq!(
        host.send(check("house")),
        Ok(Command::Reply(Event::WordChecked {
            correct_positions: vec![0, 1, 3, 4],
            contained_in_word: vec![],
            attempts_left: 5,
        }))
    );
    assert_eq!(
        host.send(check("shore")),
        Ok(Command::Reply(Event::WordChecked {
            correct_positions: vec![4],
            contained_in_word: vec![0, 1, 2, 3],
            attempts_left: 4,
        }))
    );
    let state = host.game.state();
    assert_eq!(state.game_status, GameStatus::InProgress { attempts: 2, start_time: 1 });
    assert_eq!(state.previous_guesses.len(), 2);
    assert_eq!(state.previous_guesses[0].word, "house");
    assert_eq!(state.previous_guesses[0].correct_positions, vec![0, 1, 3, 4]);
    assert_eq!(state.previous_guesses[1].word, "shore");
    assert_eq!(state.previous_guesses[1].contained_in_word, vec![0, 1, 2, 3]);
}

#[test]
fn scenario_start() {
    let mut host = Host::new("world");
    let reply = host.send(Action::StartGame);
    assert_eq!(reply, Ok(Command::ScheduleAndReply {
        delay: GAME_DURATION_BLOCKS,
        event: Event::GameStarted,
    }));
    assert_eq!(host.status(), GameStatus::InProgress { attempts: 0, start_time: 1 });
    assert_eq!(host.game.state().wordle_program_id, actor(1));
}

#[test]
fn scenario_win_on_first_guess() {
    let mut host = Host::new("world");
    host.send(Action::StartGame).unwrap();
    assert_eq!(host.send(check("world")), Ok(Command::Reply(Event::GameOver(GameResult::Win))));
    assert_eq!(host.status(), GameStatus::GameOver(GameResult::Win));
    assert_eq!(host.send(check("world")), Err(GameError::InvalidState));
}

#[test]
fn win_on_the_last_attempt() {
    let mut host = Host::new("horse");
    host.send(Action::StartGame).unwrap();
    for _ in 0..5 {
        host.send(check("plumb")).unwrap();
    }
    assert_eq!(host.send(check("horse")), Ok(Command::Reply(Event::GameOver(GameResult::Win))));
    assert_eq!(host.game.state().previous_guesses.len(), 6);
}

#[test]
fn scenario_six_misses_lose() {
    let mut host = Host::new("horse");
    host.send(Action::StartGame).unwrap();
    for left in (1..6).rev() {
        match host.send(check("plumb")) {
            Ok(Command::Reply(Event::WordChecked { attempts_left, .. })) => {
                assert_eq!(attempts_left, left)
            }
            other => panic!("unexpected {:?}", other),
        }
    }
    assert_eq!(host.send(check("plumb")), Ok(Command::Reply(Event::GameOver(GameResult::Lose))));
    assert_eq!(host.send(check("plumb")), Err(GameError::InvalidState));
    assert_eq!(host.game.state().previous_guesses.len(), 6);
}

#[test]
fn status_check_before_time_changes_nothing() {
    let mut host = Host::new("horse");
    assert_eq!(host.send(Action::CheckGameStatus), Ok(Command::Idle));
    host.send(Action::StartGame).unwrap();
    host.block = 1 + 199;
    assert_eq!(host.send(Action::CheckGameStatus), Ok(Command::Idle));
    assert_eq!(host.status(), GameStatus::InProgress { attempts: 0, start_time: 1 });
}

#[test]
fn status_check_at_deadline_times_out() {
    let mut host = Host::new("horse");
    host.send(Action::StartGame).unwrap();
    host.block = 1 + 200;
    assert_eq!(
        host.send(Action::CheckGameStatus),
        Ok(Command::Reply(Event::GameOver(GameResult::TimeOut)))
    );
    assert_eq!(host.send(check("horse")), Err(GameError::InvalidState));
    assert_eq!(host.send(Action::CheckGameStatus), Ok(Command::Idle));
}

#[test]
fn second_request_is_turned_away() {
    let mut game = Game::init(InitGameSession { wordle_program_id: actor(1) });
    let ctx = Context { message_id: message(1), source: actor(USER), block_height: 5 };
    assert_eq!(
        game.handle(Action::StartGame, ctx),
        Ok(Command::SendAndWait(WordleAction::StartGame { user: actor(USER) }))
    );
    game.message_sent(message(2));
    assert_eq!(game.session_status, SessionStatus::MessageSent);
    assert_eq!(game.msg_ids, (message(2), message(1)));

    let other = Context { message_id: message(3), source: actor(USER), block_height: 6 };
    for action in [Action::StartGame, check("horse"), Action::CheckGameStatus] {
        assert_eq!(game.handle(action, other), Ok(Command::Reply(Event::MessageAlreadySent)));
    }
    assert_eq!(game.session_status, SessionStatus::MessageSent);
    assert_eq!(game.msg_ids, (message(2), message(1)));

    let woken = game.handle_reply(message(2), WordleEvent::GameStarted { user: actor(USER) });
    assert_eq!(woken, Some(message(1)));
    assert_eq!(game.handle(Action::StartGame, Context { block_height: 7, ..ctx }), Ok(
        Command::ScheduleAndReply { delay: GAME_DURATION_BLOCKS, event: Event::GameStarted }
    ));
    assert_eq!(game.game_status, GameStatus::InProgress { attempts: 0, start_time: 7 });
    assert_eq!(game.session_status, SessionStatus::Waiting);
}

#[test]
fn parked_request_seen_again_gets_no_reply_received() {
    let mut game = Game::init(InitGameSession { wordle_program_id: actor(1) });
    let ctx = Context { message_id: message(1), source: actor(USER), block_height: 5 };
    game.handle(Action::StartGame, ctx).unwrap();
    game.message_sent(message(2));
    assert_eq!(game.handle(Action::StartGame, ctx), Ok(Command::Reply(Event::NoReplyReceived)));
    assert_eq!(game.session_status, SessionStatus::Waiting);
    assert_eq!(game.game_status, GameStatus::NotStarted);
    // The late answer no longer finds a request waiting for it.
    assert!(!game.awaits_reply(message(2)));
    assert_eq!(game.handle_reply(message(2), WordleEvent::GameStarted { user: actor(USER) }), None);
    assert_eq!(game.session_status, SessionStatus::Waiting);
}

#[test]
fn stale_reply_is_dropped() {
    let mut game = Game::init(InitGameSession { wordle_program_id: actor(1) });
    let ctx = Context { message_id: message(1), source: actor(USER), block_height: 5 };
    game.handle(Action::StartGame, ctx).unwrap();
    game.message_sent(message(2));
    assert!(game.awaits_reply(message(2)));
    assert!(!game.awaits_reply(message(9)));
    assert_eq!(game.handle_reply(message(9), WordleEvent::GameStarted { user: actor(USER) }), None);
    assert_eq!(game.session_status, SessionStatus::MessageSent);
}

#[test]
fn reply_translation() {
    assert_eq!(translate_reply(WordleEvent::GameStarted { user: actor(3) }), Event::GameStarted);
    assert_eq!(
        translate_reply(WordleEvent::WordChecked {
            user: actor(3),
            correct_positions: vec![1, 2],
            contained_in_word: vec![4],
        }),
        Event::WordChecked { correct_positions: vec![1, 2], contained_in_word: vec![4], attempts_left: 0 }
    );
}

#[test]
fn resumed_answer_of_another_kind_is_ignored() {
    let mut game = Game::init(InitGameSession { wordle_program_id: actor(1) });
    game.session_status = SessionStatus::ReplyReceived(Event::NoReplyReceived);
    let ctx = Context { message_id: message(1), source: actor(USER), block_height: 5 };
    assert_eq!(game.handle(Action::StartGame, ctx), Ok(Command::Idle));
    assert_eq!(game.session_status, SessionStatus::Waiting);
    assert_eq!(game.game_status, GameStatus::NotStarted);
}

#[test]
fn word_checked_outside_a_running_game_is_refused() {
    let mut game = Game::init(InitGameSession { wordle_program_id: actor(1) });
    let parked = SessionStatus::ReplyReceived(Event::WordChecked {
        correct_positions: vec![0],
        contained_in_word: vec![],
        attempts_left: 0,
    });
    game.session_status = parked.clone();
    let ctx = Context { message_id: message(1), source: actor(USER), block_height: 5 };
    assert_eq!(game.handle(check("horse"), ctx), Err(GameError::InvalidState));
    assert_eq!(game.session_status, parked);
    assert!(game.previous_guesses.is_empty());
}

#[test]
fn zero_message_id() {
    assert_eq!(MessageId::zero(), MessageId { hi: 0, lo: 0 });
    let game = Game::init(InitGameSession { wordle_program_id: actor(1) });
    assert_eq!(game.msg_ids, (MessageId::zero(), MessageId::zero()));
}
