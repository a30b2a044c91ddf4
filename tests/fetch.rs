use scoreboard::fetch::{
    check_body, score_sample, sleep_secs, FetchError, FetchLoop, GameResult, SleepPolicy,
};
use scoreboard::render::GameTime;

fn result(game_time: GameTime) -> GameResult {
    GameResult {
        my_team: String::from("Sparta"),
        my_team_score: 2,
        opponent_team: String::from("Slavia"),
        opponent_team_score: 1,
        game_time,
    }
}

#[test]
fn backoff_sequence() {
    let mut f = FetchLoop::new();
    assert_eq!(f.next_sleep_secs(), 0);
    assert_eq!(f.on_outcome(Err(FetchError::Connect)), None);
    assert_eq!(f.next_sleep_secs(), 30);
    assert!(f.on_outcome(Ok(result(GameTime::Played))).is_some());
    assert_eq!(f.next_sleep_secs(), 5);
}

#[test]
fn every_error_escalates() {
    for e in [
        FetchError::Connect,
        FetchError::Send,
        FetchError::BodyRead,
        FetchError::Decode,
        FetchError::Parse,
    ] {
        let mut f = FetchLoop::new();
        assert_eq!(f.on_outcome(Err(e)), None);
        assert_eq!(f.next_sleep_secs(), 30);
    }
}

#[test]
fn policy_sleeps() {
    assert_eq!(sleep_secs(SleepPolicy::FirstIteration), 0);
    assert_eq!(sleep_secs(SleepPolicy::AfterSuccess), 5);
    assert_eq!(sleep_secs(SleepPolicy::AfterFailure), 30);
}

#[test]
fn success_publishes_score_and_time() {
    let mut f = FetchLoop::new();
    assert_eq!(
        f.on_outcome(Ok(result(GameTime::Playing(5)))),
        Some((Some((2, 1)), GameTime::Playing(5)))
    );
}

#[test]
fn scheduled_game_has_no_score() {
    let mut f = FetchLoop::new();
    assert_eq!(
        f.on_outcome(Ok(result(GameTime::WillBePlayed(Some((18, 30)))))),
        Some((None, GameTime::WillBePlayed(Some((18, 30)))))
    );
    assert_eq!(score_sample(&result(GameTime::WillBePlayed(None))), None);
    assert_eq!(score_sample(&result(GameTime::BreakAfter(45))), Some((2, 1)));
}

#[test]
fn body_must_be_utf8() {
    assert_eq!(check_body(b"{\"my_team\":\"x\"}"), Ok(()));
    assert_eq!(check_body(b""), Ok(()));
    assert_eq!(check_body("z\u{e1}pas".as_bytes()), Ok(()));
    assert_eq!(check_body(&[0x7b, 0xff, 0x7d]), Err(FetchError::Decode));
    assert_eq!(check_body(&[0xc3]), Err(FetchError::Decode));
}
