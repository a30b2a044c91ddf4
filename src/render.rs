use vstd::prelude::*;
use crate::driver::{brightness_ops, display_ops, TM1637};
use crate::glyph::{glyphs_of, pair_glyphs, score_codes, score_digits, tuple_to_digits};

verus! {

/// Brightness used for every frame.
pub const DEFAULT_BRIGHTNESS_LEVEL: u8 = 3;

/// Half period of the colon blink while a game is being played, in milliseconds.
pub const COLON_BLINK_INTERVAL_MS: u64 = 500;

/// Length of the pulse shown when no game is in progress, in milliseconds.
pub const NO_GAME_PULSE_MS: u64 = 1000;

/// Where a game stands.
#[derive(Clone, Copy, Debug, PartialEq, Eq)]
pub enum GameTime {
    /// Not started; the scheduled time as two two-digit groups, when known.
    WillBePlayed(Option<(u64, u64)>),
    /// Finished.
    Played,
    /// Break after the given minute.
    BreakAfter(u64),
    /// In progress at the given minute.
    Playing(u64),
}

/// One thing a render task does next.
#[derive(Clone, Copy, Debug, PartialEq, Eq)]
pub enum Step {
    /// Show four glyph patterns, with or without the colon.
    Show { digits: [u8; 4], colon: bool },
    /// Power the unit off.
    TurnOff,
    /// Wait before the next step.
    Sleep { millis: u64 },
}

/// The mathematical form of a step.
pub enum StepView {
    Show { digits: Seq<u8>, colon: bool },
    TurnOff,
    Sleep { millis: u64 },
}

impl View for Step {
    type V = StepView;

    open spec fn view(&self) -> StepView {
        match *self {
            Step::Show { digits, colon } => StepView::Show { digits: digits@, colon },
            Step::TurnOff => StepView::TurnOff,
            Step::Sleep { millis } => StepView::Sleep { millis },
        }
    }
}

/// The views of a sequence of steps.
pub open spec fn step_views(steps: Seq<Step>) -> Seq<StepView> {
    steps.map_values(|s: Step| s@)
}

/// Four dark positions.
pub open spec fn blank_glyphs() -> Seq<u8> {
    seq![0u8, 0u8, 0u8, 0u8]
}

/// What the score display does on a sample: the score with the colon lit; or,
/// with no game in progress, one dark pulse of the colon.
pub open spec fn score_plan(score: Option<(u64, u64)>) -> Seq<StepView> {
    match score {
        Some((home, away)) => seq![
            StepView::Show { digits: glyphs_of(score_digits(home, away)), colon: true },
        ],
        None => seq![
            StepView::Show { digits: blank_glyphs(), colon: true },
            StepView::Sleep { millis: NO_GAME_PULSE_MS },
            StepView::Show { digits: blank_glyphs(), colon: false },
        ],
    }
}

/// The bus operations of one step at the default brightness; a sleep has none.
pub open spec fn step_ops(step: StepView) -> Seq<crate::driver::BusOp> {
    match step {
        StepView::Show { digits, colon } => display_ops(digits, colon, DEFAULT_BRIGHTNESS_LEVEL),
        StepView::TurnOff => brightness_ops(0, false),
        StepView::Sleep { .. } => seq![],
    }
}

/// How long a step asks to wait, in milliseconds.
pub open spec fn step_sleep(step: StepView) -> u64 {
    match step {
        StepView::Sleep { millis } => millis,
        _ => 0,
    }
}

/// Queues the bus operations of `step` on `driver` and returns how long to
/// wait afterwards, in milliseconds.
pub fn apply_step(driver: &mut TM1637, step: &Step) -> (millis: u64)
    ensures
        final(driver)@ == old(driver)@ + step_ops(step@),
        millis == step_sleep(step@),
{
    match step {
        Step::Show { digits, colon } => {
            driver.display(*digits, *colon, DEFAULT_BRIGHTNESS_LEVEL);
            0
        },
        Step::TurnOff => {
            driver.turn_off();
            0
        },
        Step::Sleep { millis } => {
            assert(driver@ =~= old(driver)@ + step_ops(step@));
            *millis
        },
    }
}

/// The steps of the score display for one sample.
pub fn score_steps(score: Option<(u64, u64)>) -> (r: Vec<Step>)
    ensures
        step_views(r@) == score_plan(score),
{
    let mut r: Vec<Step> = Vec::new();
    match score {
        Some((home, away)) => {
            r.push(Step::Show { digits: score_codes(home, away), colon: true });
        },
        None => {
            let empty: [u8; 4] = [0u8; 4];
            r.push(Step::Show { digits: empty, colon: true });
            r.push(Step::Sleep { millis: NO_GAME_PULSE_MS });
            r.push(Step::Show { digits: empty, colon: false });
            assert(empty@ =~= blank_glyphs());
        },
    }
    assert(step_views(r@) =~= score_plan(score));
    r
}

/// The state of the time display: the frame being blinked, if any, and the
/// colon of the next blink frame.
pub struct TimeView {
    pub blink: Option<Seq<u8>>,
    pub colon: bool,
}

/// The minute as a two-digit group beside two zeros.
pub open spec fn minute_glyphs(minute: u64) -> Seq<u8> {
    pair_glyphs(minute, 0)
}

/// What the time display does on a new value.
pub open spec fn time_plan(t: GameTime) -> Seq<StepView> {
    match t {
        GameTime::Played => seq![StepView::TurnOff],
        GameTime::WillBePlayed(None) => seq![StepView::TurnOff],
        GameTime::WillBePlayed(Some((a, b))) => seq![
            StepView::Show { digits: pair_glyphs(a, b), colon: true },
        ],
        GameTime::BreakAfter(m) => seq![StepView::Show { digits: minute_glyphs(m), colon: true }],
        GameTime::Playing(m) => seq![
            StepView::Show { digits: minute_glyphs(m), colon: true },
            StepView::Sleep { millis: COLON_BLINK_INTERVAL_MS },
        ],
    }
}

/// The state after a new value: blinking for a game in progress, else still.
pub open spec fn time_state(t: GameTime) -> TimeView {
    match t {
        GameTime::Playing(m) => TimeView { blink: Some(minute_glyphs(m)), colon: false },
        _ => TimeView { blink: None, colon: false },
    }
}

/// What the time display does when a blink half-period ends, given whether a
/// new value is waiting: nothing when it is still or a value waits, else the
/// next blink frame.
pub open spec fn half_cycle_plan(s: TimeView, pending: bool) -> Seq<StepView> {
    match s.blink {
        Some(d) if !pending => seq![
            StepView::Show { digits: d, colon: s.colon },
            StepView::Sleep { millis: COLON_BLINK_INTERVAL_MS },
        ],
        _ => seq![],
    }
}

/// The state after a blink half-period ends: a waiting value stops the blink,
/// else the colon flips.
pub open spec fn half_cycle_state(s: TimeView, pending: bool) -> TimeView {
    match s.blink {
        Some(d) if !pending => TimeView { blink: Some(d), colon: !s.colon },
        _ => TimeView { blink: None, colon: s.colon },
    }
}

/// The state after `n` half-periods with no value waiting.
pub open spec fn quiet_cycles(s: TimeView, n: nat) -> TimeView
    decreases n,
{
    if n == 0 {
        s
    } else {
        half_cycle_state(quiet_cycles(s, (n - 1) as nat), false)
    }
}

/// Render policy of the time display.
pub struct TimeRenderer {
    blink: Option<[u8; 4]>,
    colon: bool,
}

impl View for TimeRenderer {
    type V = TimeView;

    closed spec fn view(&self) -> TimeView {
        TimeView {
            blink: match self.blink {
                Some(d) => Some(d@),
                None => None,
            },
            colon: self.colon,
        }
    }
}

impl TimeRenderer {
    /// A renderer that blinks nothing.
    pub fn new() -> (r: TimeRenderer)
        ensures
            r@.blink == None::<Seq<u8>>,
    {
        TimeRenderer { blink: None, colon: false }
    }

    /// Whether a blink is running, so that the task should report the end of
    /// each half-period rather than wait for a value.
    pub fn is_blinking(&self) -> (r: bool)
        ensures
            r == self@.blink.is_some(),
    {
        self.blink.is_some()
    }

    /// The steps for a new value; a game in progress starts the blink.
    pub fn on_value(&mut self, t: GameTime) -> (r: Vec<Step>)
        ensures
            step_views(r@) == time_plan(t),
            final(self)@ == time_state(t),
    {
        let mut r: Vec<Step> = Vec::new();
        self.blink = None;
        self.colon = false;
        match t {
            GameTime::Played => {
                r.push(Step::TurnOff);
            },
            GameTime::WillBePlayed(when) => {
                match when {
                    Some(when) => {
                        r.push(Step::Show { digits: tuple_to_digits(when), colon: true });
                    },
                    None => {
                        r.push(Step::TurnOff);
                    },
                }
            },
            GameTime::Playing(minute) => {
                let digits = tuple_to_digits((minute, 0));
                r.push(Step::Show { digits, colon: true });
                r.push(Step::Sleep { millis: COLON_BLINK_INTERVAL_MS });
                self.blink = Some(digits);
            },
            GameTime::BreakAfter(minute) => {
                r.push(Step::Show { digits: tuple_to_digits((minute, 0)), colon: true });
            },
        }
        assert(step_views(r@) =~= time_plan(t));
        r
    }

    /// The steps when a blink half-period ends; `pending` tells whether a new
    /// value is waiting, which stops the blink at once.
    pub fn on_half_cycle(&mut self, pending: bool) -> (r: Vec<Step>)
        ensures
            step_views(r@) == half_cycle_plan(old(self)@, pending),
            final(self)@ == half_cycle_state(old(self)@, pending),
    {
        let mut r: Vec<Step> = Vec::new();
        match self.blink {
            Some(digits) => {
                if pending {
                    self.blink = None;
                } else {
                    r.push(Step::Show { digits, colon: self.colon });
                    r.push(Step::Sleep { millis: COLON_BLINK_INTERVAL_MS });
                    self.colon = !self.colon;
                }
            },
            None => {},
        }
        assert(step_views(r@) =~= half_cycle_plan(old(self)@, pending));
        r
    }
}

/// A game in progress at `minute` blinks: after the first frame (colon lit)
/// and `n` quiet half-periods, the next frame shows the same digits with the
/// colon lit exactly when `n` is odd, each frame followed by one half-period
/// of sleep; and a value waiting at the end of any half-period stops the blink
/// with no further frame.
pub proof fn lemma_playing_blinks(minute: u64, n: nat)
    ensures
        time_plan(GameTime::Playing(minute))[0] == (StepView::Show {
            digits: minute_glyphs(minute),
            colon: true,
        }),
        quiet_cycles(time_state(GameTime::Playing(minute)), n) == (TimeView {
            blink: Some(minute_glyphs(minute)),
            colon: n % 2 == 1,
        }),
        half_cycle_plan(quiet_cycles(time_state(GameTime::Playing(minute)), n), false) == seq![
            StepView::Show { digits: minute_glyphs(minute), colon: n % 2 == 1 },
            StepView::Sleep { millis: COLON_BLINK_INTERVAL_MS },
        ],
        half_cycle_plan(quiet_cycles(time_state(GameTime::Playing(minute)), n), true) == Seq::<
            StepView,
        >::empty(),
        half_cycle_state(quiet_cycles(time_state(GameTime::Playing(minute)), n), true).blink
            == None::<Seq<u8>>,
    decreases n,
{
    if n > 0 {
        lemma_playing_blinks(minute, (n - 1) as nat);
    }
    assert(half_cycle_plan(quiet_cycles(time_state(GameTime::Playing(minute)), n), true)
        =~= Seq::<StepView>::empty());
}

} // verus!
