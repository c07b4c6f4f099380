use bevymmo::names::{check_join_name, normalize_name, validate_player_name, PlayerNameError};

#[test]
fn player_name_is_trimmed_and_must_be_between_three_and_sixteen_characters() {
    assert_eq!(validate_player_name("  Ada  "), Ok("Ada".to_owned()));
    assert_eq!(validate_player_name("ab"), Err(PlayerNameError::TooShort));
    assert_eq!(
        validate_player_name("abcdefghijklmnopq"),
        Err(PlayerNameError::TooLong)
    );
}

#[test]
fn a_valid_display_name_has_a_stable_database_key() {
    let display_name = validate_player_name("  Ada  ").expect("valid name");
    assert_eq!(display_name, "Ada");
    assert_eq!(normalize_name(&display_name), "ada");
}

#[test]
fn invalid_names_are_rejected_before_database_access() {
    assert!(validate_player_name("ab").is_err());
    assert!(validate_player_name("").is_err());
}

#[test]
fn name_length_bounds_are_inclusive() {
    assert_eq!(validate_player_name("abc"), Ok("abc".to_owned()));
    assert_eq!(validate_player_name("abcdefghijklmnop"), Ok("abcdefghijklmnop".to_owned()));
    assert_eq!(validate_player_name("   ab   "), Err(PlayerNameError::TooShort));
}

#[test]
fn the_key_folds_case_beyond_ascii() {
    assert_eq!(normalize_name("  ÉMILE "), "émile");
    assert_eq!(normalize_name("Ada"), normalize_name(" ada "));
}

#[test]
fn join_accepts_a_name_and_returns_its_key() {
    assert_eq!(check_join_name("  Grace "), Ok("grace".to_owned()));
}

#[test]
fn join_refuses_a_short_name_with_it_quoted() {
    assert_eq!(
        check_join_name(" x "),
        Err("name must be 3-16 characters, got \" x \"".to_owned())
    );
}
