use bevymmo::ids::{make_prop_id, validate_id};

#[test]
fn ids_hold_only_safe_characters() {
    assert!(validate_id("prop_0042"));
    assert!(validate_id("Starting-Village_2"));
    assert!(!validate_id(""));
    assert!(!validate_id("has space"));
    assert!(!validate_id("dot.ted"));
    assert!(!validate_id("é"));
}

#[test]
fn prop_ids_are_zero_padded_to_four_digits() {
    assert_eq!(make_prop_id(0), "prop_0000");
    assert_eq!(make_prop_id(42), "prop_0042");
    assert_eq!(make_prop_id(12345), "prop_12345");
    assert!(validate_id(&make_prop_id(7)));
}
