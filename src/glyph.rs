use vstd::prelude::*;

verus! {

// Segment bits, XGFEDCBA:
//
//      A
//     ---
//  F |   | B
//     -G-
//  E |   | C
//     ---
//      D
/// Glyph patterns of the hexadecimal digits 0 to F.
pub const DIGITS: [u8; 16] = [
    0b00111111,  // 0
    0b00000110,  // 1
    0b01011011,  // 2
    0b01001111,  // 3
    0b01100110,  // 4
    0b01101101,  // 5
    0b01111101,  // 6
    0b00000111,  // 7
    0b01111111,  // 8
    0b01101111,  // 9
    0b01110111,  // A
    0b01111100,  // b
    0b00111001,  // C
    0b01011110,  // d
    0b01111001,  // E
    0b01110001,  // F
];

/// The glyph pattern of the hexadecimal digit `d`.
pub open spec fn digit_glyph(d: int) -> u8
    recommends
        0 <= d < 16,
{
    if d == 0 { 0b00111111 }
    else if d == 1 { 0b00000110 }
    else if d == 2 { 0b01011011 }
    else if d == 3 { 0b01001111 }
    else if d == 4 { 0b01100110 }
    else if d == 5 { 0b01101101 }
    else if d == 6 { 0b01111101 }
    else if d == 7 { 0b00000111 }
    else if d == 8 { 0b01111111 }
    else if d == 9 { 0b01101111 }
    else if d == 10 { 0b01110111 }
    else if d == 11 { 0b01111100 }
    else if d == 12 { 0b00111001 }
    else if d == 13 { 0b01011110 }
    else if d == 14 { 0b01111001 }
    else { 0b01110001 }
}

/// The pattern shown for an optional digit: a blank position lights nothing.
pub open spec fn glyph_of(digit: Option<u64>) -> u8 {
    match digit {
        None => 0,
        Some(d) => digit_glyph(d as int),
    }
}

/// A digit position holds nothing or a hexadecimal digit.
pub open spec fn digit_ok(digit: Option<u64>) -> bool {
    match digit {
        None => true,
        Some(d) => d < 16,
    }
}

/// Every glyph of the table leaves the colon bit clear.
pub proof fn lemma_glyph_no_colon(d: int)
    requires
        0 <= d < 16,
    ensures
        digit_glyph(d) < 0x80,
{
}

/// Encodes an optional digit as its segment pattern.
pub fn get_digit_code(digit: Option<u64>) -> (r: u8)
    requires
        digit_ok(digit),
    ensures
        r == glyph_of(digit),
        r < 0x80,
{
    match digit {
        None => 0x0,
        Some(d) => {
            proof {
                lemma_glyph_no_colon(d as int);
            }
            assert(DIGITS@ =~= seq![
                0b00111111u8, 0b00000110, 0b01011011, 0b01001111, 0b01100110, 0b01101101,
                0b01111101, 0b00000111, 0b01111111, 0b01101111, 0b01110111, 0b01111100,
                0b00111001, 0b01011110, 0b01111001, 0b01110001,
            ]);
            DIGITS[d as usize]
        },
    }
}

/// The four positions of a score: home tens and ones, away tens and ones.
/// A zero home tens digit is blanked; a zero away tens digit gives way to the
/// away ones digit, which moves next to the separator, and the last position
/// is blanked. Scores above 99 keep their last two decimal digits.
pub open spec fn score_digits(home: u64, away: u64) -> Seq<Option<u64>> {
    let tens1 = home / 10 % 10;
    let ones1 = home % 10;
    let tens2 = away / 10 % 10;
    let ones2 = away % 10;
    seq![
        if tens1 == 0 { None } else { Some(tens1) },
        Some(ones1),
        if tens2 == 0 { Some(ones2) } else { Some(tens2) },
        if tens2 == 0 { None } else { Some(ones2) },
    ]
}

/// The patterns of a sequence of digit positions.
pub open spec fn glyphs_of(digits: Seq<Option<u64>>) -> Seq<u8> {
    digits.map_values(|d: Option<u64>| glyph_of(d))
}

/// The four patterns of a pair shown as two two-digit groups, zeros included.
pub open spec fn pair_glyphs(first: u64, second: u64) -> Seq<u8> {
    seq![
        digit_glyph((first / 10 % 10) as int),
        digit_glyph((first % 10) as int),
        digit_glyph((second / 10 % 10) as int),
        digit_glyph((second % 10) as int),
    ]
}

/// Lays out a home and an away score on four digit positions.
pub fn format_score(home: u64, away: u64) -> (r: [Option<u64>; 4])
    ensures
        r@ == score_digits(home, away),
        forall|i: int| 0 <= i < 4 ==> digit_ok(#[trigger] r@[i]),
{
    let mut first = Some(home / 10 % 10);
    let second = Some(home % 10);
    let mut third = Some(away / 10 % 10);
    let mut fourth = Some(away % 10);
    // a leading zero of the home score is left dark
    if home / 10 % 10 == 0 {
        first = None;
    }
    // a single-digit away score sits next to the separator
    if away / 10 % 10 == 0 {
        third = fourth;
        fourth = None;
    }
    let r = [first, second, third, fourth];
    assert(r@ =~= score_digits(home, away));
    r
}

/// The four patterns shown for a score.
pub fn score_codes(home: u64, away: u64) -> (r: [u8; 4])
    ensures
        r@ == glyphs_of(score_digits(home, away)),
        forall|i: int| 0 <= i < 4 ==> #[trigger] r@[i] < 0x80,
{
    let digits = format_score(home, away);
    let r = [
        get_digit_code(digits[0]),
        get_digit_code(digits[1]),
        get_digit_code(digits[2]),
        get_digit_code(digits[3]),
    ];
    assert(r@ =~= glyphs_of(score_digits(home, away)));
    r
}

/// The four patterns of a pair of two-digit groups, such as an hour and a minute.
pub fn tuple_to_digits(tuple: (u64, u64)) -> (r: [u8; 4])
    ensures
        r@ == pair_glyphs(tuple.0, tuple.1),
        forall|i: int| 0 <= i < 4 ==> #[trigger] r@[i] < 0x80,
{
    let r = [
        get_digit_code(Some(tuple.0 / 10 % 10)),
        get_digit_code(Some(tuple.0 % 10)),
        get_digit_code(Some(tuple.1 / 10 % 10)),
        get_digit_code(Some(tuple.1 % 10)),
    ];
    assert(r@ =~= pair_glyphs(tuple.0, tuple.1));
    r
}

} // verus!
