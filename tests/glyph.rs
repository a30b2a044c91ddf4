use scoreboard::glyph::{format_score, get_digit_code, score_codes, tuple_to_digits, DIGITS};

#[test]
fn digits_encode_to_documented_glyphs() {
    let expected: [u8; 10] = [
        0b00111111, 0b00000110, 0b01011011, 0b01001111, 0b01100110, 0b01101101, 0b01111101,
        0b00000111, 0b01111111, 0b01101111,
    ];
    for d in 0..10u64 {
        assert_eq!(get_digit_code(Some(d)), expected[d as usize]);
    }
    assert_eq!(get_digit_code(Some(0)), 0b00111111);
    assert_eq!(get_digit_code(Some(1)), 0b00000110);
}

#[test]
fn hex_digits_come_from_the_table() {
    for d in 10..16u64 {
        assert_eq!(get_digit_code(Some(d)), DIGITS[d as usize]);
    }
    assert_eq!(get_digit_code(Some(15)), 0b01110001);
}

#[test]
fn blank_encodes_to_zero() {
    assert_eq!(get_digit_code(None), 0x00);
}

#[test]
fn no_glyph_has_the_colon_bit() {
    for g in DIGITS.iter() {
        assert_eq!(g & 0x80, 0);
    }
}

#[test]
fn format_single_digit_scores() {
    assert_eq!(format_score(7, 0), [None, Some(7), Some(0), None]);
}

#[test]
fn format_two_digit_scores() {
    assert_eq!(format_score(12, 34), [Some(1), Some(2), Some(3), Some(4)]);
}

#[test]
fn format_zero_zero() {
    assert_eq!(format_score(0, 0), [None, Some(0), Some(0), None]);
}

#[test]
fn format_away_tens_zero_shifts_ones() {
    assert_eq!(format_score(10, 5), [Some(1), Some(0), Some(5), None]);
}

#[test]
fn format_scores_above_ninety_nine_wrap() {
    assert_eq!(format_score(123, 205), [Some(2), Some(3), Some(5), None]);
    assert_eq!(format_score(u64::MAX, 100), [Some(1), Some(5), Some(0), None]);
}

#[test]
fn score_codes_encode_each_position() {
    assert_eq!(score_codes(7, 0), [0x00, 0b00000111, 0b00111111, 0x00]);
    assert_eq!(
        score_codes(12, 34),
        [0b00000110, 0b01011011, 0b01001111, 0b01100110]
    );
}

#[test]
fn pair_keeps_leading_zeros() {
    assert_eq!(
        tuple_to_digits((5, 0)),
        [0b00111111, 0b01101101, 0b00111111, 0b00111111]
    );
    assert_eq!(
        tuple_to_digits((18, 30)),
        [0b00000110, 0b01111111, 0b01001111, 0b00111111]
    );
}
