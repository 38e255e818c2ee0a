use codex_accounts::error::AccountsError;
use codex_accounts::validate_name;

#[test]
fn profile_names_are_safe() {
    assert!(validate_name("personal").is_ok());
    assert!(validate_name("work-2026").is_ok());
    assert!(validate_name("a.b_c-d9").is_ok());
    assert!(validate_name("../escape").is_err());
    assert!(validate_name("_leading").is_err());
    assert!(validate_name("-leading").is_err());
    assert!(validate_name(".leading").is_err());
    assert!(validate_name("").is_err());
    assert!(validate_name(&"a".repeat(65)).is_err());
    assert!(validate_name(&"a".repeat(64)).is_ok());
}

#[test]
fn names_reject_separators_and_non_ascii() {
    assert!(validate_name("a/b").is_err());
    assert!(validate_name("a\\b").is_err());
    assert!(validate_name("..").is_err());
    assert!(validate_name("é").is_err());
    assert!(validate_name("aé").is_err());
    assert!(validate_name("a b").is_err());
    assert!(validate_name("Z9").is_ok());
    assert!(validate_name("9").is_ok());
    assert!(validate_name("a..").is_ok());
}

#[test]
fn invalid_name_message() {
    match validate_name("../x") {
        Err(e) => {
            assert!(matches!(e, AccountsError::InvalidProfileName));
            assert_eq!(
                e.message(),
                "Invalid profile name. Use 1-64 letters, numbers, '.', '_' or '-'."
            );
        }
        Ok(()) => panic!("accepted an invalid name"),
    }
}
