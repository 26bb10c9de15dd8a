//! The fixed sport-code table and its formatted fallback.

use fitcore::sport::sport_to_string;

#[test]
fn known_codes_map_through_the_table() {
    assert_eq!(sport_to_string(0), "generic");
    assert_eq!(sport_to_string(1), "running");
    assert_eq!(sport_to_string(2), "cycling");
    assert_eq!(sport_to_string(5), "swimming");
    assert_eq!(sport_to_string(11), "walking");
    assert_eq!(sport_to_string(17), "hiking");
    assert_eq!(sport_to_string(20), "strength_training");
}

#[test]
fn unmapped_codes_render_with_the_numeric_code() {
    assert_eq!(sport_to_string(21), "sport_21");
    assert_eq!(sport_to_string(99), "sport_99");
    assert_eq!(sport_to_string(100), "sport_100");
    assert_eq!(sport_to_string(255), "sport_255");
}
