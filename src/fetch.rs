use vstd::prelude::*;
use crate::render::GameTime;

verus! {

/// The outcome of the previous fetch, which sets the wait before the next one.
#[derive(Clone, Copy, Debug, PartialEq, Eq, Structural)]
pub enum SleepPolicy {
    FirstIteration,
    AfterSuccess,
    AfterFailure,
}

/// Why a fetch of the feed failed.
#[derive(Clone, Copy, Debug, PartialEq, Eq, Structural)]
pub enum FetchError {
    /// The request could not be made.
    Connect,
    /// The request could not be sent.
    Send,
    /// The response body could not be read.
    BodyRead,
    /// The body is not UTF-8.
    Decode,
    /// The body does not hold a game result.
    Parse,
}

/// One decoded response of the feed.
#[derive(Debug)]
pub struct GameResult {
    pub my_team: String,
    pub my_team_score: u64,
    pub opponent_team: String,
    pub opponent_team_score: u64,
    pub game_time: GameTime,
}

/// The wait before a fetch under a policy, in seconds.
pub open spec fn sleep_of(policy: SleepPolicy) -> u64 {
    match policy {
        SleepPolicy::FirstIteration => 0,
        SleepPolicy::AfterSuccess => 5,
        SleepPolicy::AfterFailure => 30,
    }
}

/// The policy after a fetch that succeeded or failed.
pub open spec fn policy_after(success: bool) -> SleepPolicy {
    if success {
        SleepPolicy::AfterSuccess
    } else {
        SleepPolicy::AfterFailure
    }
}

/// The score sample of a result: none before the game, else the two scores.
pub open spec fn sample_of(game_time: GameTime, home: u64, away: u64) -> Option<(u64, u64)> {
    match game_time {
        GameTime::WillBePlayed(_) => None,
        _ => Some((home, away)),
    }
}

/// Whether the bytes are well-formed UTF-8.
pub uninterp spec fn utf8_valid(bytes: Seq<u8>) -> bool;

/// Relies on core::str::from_utf8, which accepts exactly the well-formed
/// UTF-8 slices; the empty slice and ASCII bytes are well-formed.
#[verifier::external_body]
fn is_utf8(bytes: &[u8]) -> (r: bool)
    ensures
        r == utf8_valid(bytes@),
        (forall|i: int| 0 <= i < bytes@.len() ==> #[trigger] bytes@[i] < 0x80) ==> r,
{
    core::str::from_utf8(bytes).is_ok()
}

/// Checks that a response body is text before it is parsed.
pub fn check_body(body: &[u8]) -> (r: Result<(), FetchError>)
    ensures
        r == (if utf8_valid(body@) {
            Ok::<(), FetchError>(())
        } else {
            Err(FetchError::Decode)
        }),
        (forall|i: int| 0 <= i < body@.len() ==> #[trigger] body@[i] < 0x80) ==> r is Ok,
{
    if is_utf8(body) {
        Ok(())
    } else {
        Err(FetchError::Decode)
    }
}

/// The wait before a fetch under `policy`, in seconds.
pub fn sleep_secs(policy: SleepPolicy) -> (r: u64)
    ensures
        r == sleep_of(policy),
{
    match policy {
        SleepPolicy::FirstIteration => 0,
        SleepPolicy::AfterSuccess => 5,
        SleepPolicy::AfterFailure => 30,
    }
}

/// The score sample to publish for a result.
pub fn score_sample(result: &GameResult) -> (r: Option<(u64, u64)>)
    ensures
        r == sample_of(result.game_time, result.my_team_score, result.opponent_team_score),
{
    match result.game_time {
        GameTime::WillBePlayed(_) => None,
        _ => Some((result.my_team_score, result.opponent_team_score)),
    }
}

/// The backoff of the fetch loop.
pub struct FetchLoop {
    policy: SleepPolicy,
}

impl View for FetchLoop {
    type V = SleepPolicy;

    closed spec fn view(&self) -> SleepPolicy {
        self.policy
    }
}

impl FetchLoop {
    /// A loop before its first fetch.
    pub fn new() -> (r: FetchLoop)
        ensures
            r@ == SleepPolicy::FirstIteration,
    {
        FetchLoop { policy: SleepPolicy::FirstIteration }
    }

    /// The wait before the next fetch, in seconds.
    pub fn next_sleep_secs(&self) -> (r: u64)
        ensures
            r == sleep_of(self@),
    {
        sleep_secs(self.policy)
    }

    /// Records the outcome of a fetch. On success, returns the score sample
    /// and the game time to publish; on failure, returns nothing, so that the
    /// displays keep what they show.
    pub fn on_outcome(&mut self, outcome: Result<GameResult, FetchError>) -> (r: Option<
        (Option<(u64, u64)>, GameTime),
    >)
        ensures
            final(self)@ == policy_after(outcome is Ok),
            match outcome {
                Ok(res) => r == Some(
                    (
                        sample_of(res.game_time, res.my_team_score, res.opponent_team_score),
                        res.game_time,
                    ),
                ),
                Err(_) => r is None,
            },
    {
        match outcome {
            Ok(result) => {
                self.policy = SleepPolicy::AfterSuccess;
                Some((score_sample(&result), result.game_time))
            },
            Err(_) => {
                self.policy = SleepPolicy::AfterFailure;
                None
            },
        }
    }
}

/// The backoff: the first fetch waits 0 s; a fetch after a failure waits
/// 30 s and a fetch after a success waits 5 s.
pub proof fn lemma_backoff(success: bool)
    ensures
        sleep_of(SleepPolicy::FirstIteration) == 0,
        sleep_of(policy_after(false)) == 30,
        sleep_of(policy_after(true)) == 5,
        sleep_of(policy_after(success)) == if success { 5u64 } else { 30u64 },
{
}

} // verus!
