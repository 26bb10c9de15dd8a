//! Mapping of numeric device sport codes to canonical workout-type labels.

use vstd::prelude::*;

verus! {

/// The decimal digit character for `d`.
pub open spec fn spec_dec_digit(d: int) -> char {
    if d == 0 {
        '0'
    } else if d == 1 {
        '1'
    } else if d == 2 {
        '2'
    } else if d == 3 {
        '3'
    } else if d == 4 {
        '4'
    } else if d == 5 {
        '5'
    } else if d == 6 {
        '6'
    } else if d == 7 {
        '7'
    } else if d == 8 {
        '8'
    } else {
        '9'
    }
}

/// The decimal rendering of `n`, without leading zeros.
pub open spec fn spec_u8_decimal(n: u8) -> Seq<char> {
    if n >= 100 {
        seq![
            spec_dec_digit(n as int / 100),
            spec_dec_digit((n as int / 10) % 10),
            spec_dec_digit(n as int % 10),
        ]
    } else if n >= 10 {
        seq![spec_dec_digit(n as int / 10), spec_dec_digit(n as int % 10)]
    } else {
        seq![spec_dec_digit(n as int)]
    }
}

/// The canonical label of a numeric sport code: a fixed table for the known
/// codes, and `sport_<code>` for the rest.
pub open spec fn spec_sport_name(code: u8) -> Seq<char> {
    if code == 0 {
        "generic"@
    } else if code == 1 {
        "running"@
    } else if code == 2 {
        "cycling"@
    } else if code == 3 {
        "transition"@
    } else if code == 4 {
        "fitness_equipment"@
    } else if code == 5 {
        "swimming"@
    } else if code == 6 {
        "basketball"@
    } else if code == 7 {
        "soccer"@
    } else if code == 8 {
        "tennis"@
    } else if code == 9 {
        "american_football"@
    } else if code == 10 {
        "training"@
    } else if code == 11 {
        "walking"@
    } else if code == 12 {
        "cross_country_skiing"@
    } else if code == 13 {
        "alpine_skiing"@
    } else if code == 14 {
        "snowboarding"@
    } else if code == 15 {
        "rowing"@
    } else if code == 16 {
        "mountaineering"@
    } else if code == 17 {
        "hiking"@
    } else if code == 18 {
        "multisport"@
    } else if code == 19 {
        "paddling"@
    } else if code == 20 {
        "strength_training"@
    } else {
        "sport_"@ + spec_u8_decimal(code)
    }
}

/// The one-character string for a decimal digit.
fn dec_digit_str(d: u8) -> (r: &'static str)
    requires
        d < 10,
    ensures
        r@ =~= seq![spec_dec_digit(d as int)],
{
    let r: &'static str = match d {
        0 => "0",
        1 => "1",
        2 => "2",
        3 => "3",
        4 => "4",
        5 => "5",
        6 => "6",
        7 => "7",
        8 => "8",
        _ => "9",
    };
    proof {
        reveal_strlit("0");
        reveal_strlit("1");
        reveal_strlit("2");
        reveal_strlit("3");
        reveal_strlit("4");
        reveal_strlit("5");
        reveal_strlit("6");
        reveal_strlit("7");
        reveal_strlit("8");
        reveal_strlit("9");
    }
    r
}

/// Render `n` in decimal, without leading zeros.
fn u8_decimal(n: u8) -> (r: String)
    ensures
        r@ == spec_u8_decimal(n),
{
    let mut s = String::new();
    if n >= 100 {
        s.append(dec_digit_str(n / 100));
        s.append(dec_digit_str((n / 10) % 10));
        s.append(dec_digit_str(n % 10));
        assert(s@ =~= spec_u8_decimal(n));
    } else if n >= 10 {
        s.append(dec_digit_str(n / 10));
        s.append(dec_digit_str(n % 10));
        assert(s@ =~= spec_u8_decimal(n));
    } else {
        s.append(dec_digit_str(n));
        assert(s@ =~= spec_u8_decimal(n));
    }
    s
}

/// Map a numeric device sport code to its canonical workout-type label;
/// unmapped codes render as `sport_<code>`.
pub fn sport_to_string(sport_num: u8) -> (r: String)
    ensures
        r@ == spec_sport_name(sport_num),
{
    match sport_num {
        0 => String::from_str("generic"),
        1 => String::from_str("running"),
        2 => String::from_str("cycling"),
        3 => String::from_str("transition"),
        4 => String::from_str("fitness_equipment"),
        5 => String::from_str("swimming"),
        6 => String::from_str("basketball"),
        7 => String::from_str("soccer"),
        8 => String::from_str("tennis"),
        9 => String::from_str("american_football"),
        10 => String::from_str("training"),
        11 => String::from_str("walking"),
        12 => String::from_str("cross_country_skiing"),
        13 => String::from_str("alpine_skiing"),
        14 => String::from_str("snowboarding"),
        15 => String::from_str("rowing"),
        16 => String::from_str("mountaineering"),
        17 => String::from_str("hiking"),
        18 => String::from_str("multisport"),
        19 => String::from_str("paddling"),
        20 => String::from_str("strength_training"),
        _ => {
            let mut s = String::from_str("sport_");
            let digits = u8_decimal(sport_num);
            s.append(digits.as_str());
            s
        },
    }
}

} // verus!
