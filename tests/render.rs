use scoreboard::driver::TM1637;
use scoreboard::render::{apply_step, score_steps, GameTime, Step, TimeRenderer};

const ZERO: u8 = 0b00111111;
const FIVE: u8 = 0b01101101;

#[test]
fn score_is_shown_once_with_colon() {
    assert_eq!(
        score_steps(Some((7, 0))),
        vec![Step::Show { digits: [0x00, 0b00000111, ZERO, 0x00], colon: true }]
    );
}

#[test]
fn no_game_is_one_pulse() {
    assert_eq!(
        score_steps(None),
        vec![
            Step::Show { digits: [0; 4], colon: true },
            Step::Sleep { millis: 1000 },
            Step::Show { digits: [0; 4], colon: false }
        ]
    );
}

#[test]
fn finished_or_unscheduled_game_turns_off() {
    let mut t = TimeRenderer::new();
    assert_eq!(t.on_value(GameTime::Played), vec![Step::TurnOff]);
    assert!(!t.is_blinking());
    assert_eq!(t.on_value(GameTime::WillBePlayed(None)), vec![Step::TurnOff]);
    assert!(!t.is_blinking());
}

#[test]
fn scheduled_time_and_break_are_static() {
    let mut t = TimeRenderer::new();
    assert_eq!(
        t.on_value(GameTime::WillBePlayed(Some((18, 5)))),
        vec![Step::Show { digits: [0b00000110, 0b01111111, ZERO, FIVE], colon: true }]
    );
    assert!(!t.is_blinking());
    assert_eq!(
        t.on_value(GameTime::BreakAfter(45)),
        vec![Step::Show { digits: [0b01100110, FIVE, ZERO, ZERO], colon: true }]
    );
    assert!(!t.is_blinking());
    assert!(t.on_half_cycle(false).is_empty());
}

#[test]
fn playing_blinks_until_a_value_waits() {
    let digits = [ZERO, FIVE, ZERO, ZERO];
    let mut t = TimeRenderer::new();
    assert_eq!(
        t.on_value(GameTime::Playing(5)),
        vec![Step::Show { digits, colon: true }, Step::Sleep { millis: 500 }]
    );
    assert!(t.is_blinking());
    for i in 0..6 {
        assert_eq!(
            t.on_half_cycle(false),
            vec![Step::Show { digits, colon: i % 2 == 1 }, Step::Sleep { millis: 500 }]
        );
        assert!(t.is_blinking());
    }
    assert!(t.on_half_cycle(true).is_empty());
    assert!(!t.is_blinking());
    assert!(t.on_half_cycle(false).is_empty());
}

#[test]
fn new_value_replaces_blink() {
    let mut t = TimeRenderer::new();
    t.on_value(GameTime::Playing(5));
    t.on_half_cycle(false);
    assert_eq!(t.on_value(GameTime::Played), vec![Step::TurnOff]);
    assert!(!t.is_blinking());
}

#[test]
fn steps_drive_the_engine() {
    let mut d = TM1637::new();
    let mut expected = TM1637::new();
    let show = Step::Show { digits: [1, 2, 3, 4], colon: false };
    assert_eq!(apply_step(&mut d, &show), 0);
    expected.display([1, 2, 3, 4], false, 3);
    assert_eq!(d.take_ops(), expected.take_ops());
    assert_eq!(apply_step(&mut d, &Step::TurnOff), 0);
    expected.turn_off();
    assert_eq!(d.take_ops(), expected.take_ops());
    assert_eq!(apply_step(&mut d, &Step::Sleep { millis: 500 }), 500);
    assert!(d.take_ops().is_empty());
}
