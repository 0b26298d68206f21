use session_auth::errors::MyError;
use session_auth::policy::{policy_char, validate_name, validate_password, Policy};

#[test]
fn password_needs_eight_characters() {
    let rule = Policy::for_passwords();
    assert!(!rule.permits(""));
    assert!(!rule.permits("Abcdef1"));
    assert!(rule.permits("Abcdef12"));
}

#[test]
fn password_takes_at_most_thirty_characters() {
    let rule = Policy::for_passwords();
    let thirty = "a".repeat(30);
    let thirty_one = "a".repeat(31);
    assert!(rule.permits(&thirty));
    assert!(!rule.permits(&thirty_one));
}

#[test]
fn name_takes_three_to_fifteen_characters() {
    let rule = Policy::for_names();
    assert!(!rule.permits("al"));
    assert!(rule.permits("ali"));
    assert!(rule.permits("abcdefghijklmno"));
    assert!(!rule.permits("abcdefghijklmnop"));
}

#[test]
fn policy_bounds_are_the_documented_ones() {
    assert_eq!(Policy::for_names(), Policy { min_len: 3, max_len: 15 });
    assert_eq!(Policy::for_passwords(), Policy { min_len: 8, max_len: 30 });
}

#[test]
fn letters_digits_and_the_eight_symbols_are_allowed() {
    for c in "AZaz09#$@!%&*?".chars() {
        assert!(policy_char(c), "{c:?} should be allowed");
    }
    assert!(Policy::for_passwords().permits("#$@!%&*?"));
}

#[test]
fn other_characters_are_refused() {
    for c in " _-.,:;/\\\"'()[]{}<>=+^~`|\n\t\u{e9}\u{663}\u{ff11}".chars() {
        assert!(!policy_char(c), "{c:?} should be refused");
    }
    assert!(!Policy::for_passwords().permits("Abcdef 12"));
    assert!(!Policy::for_passwords().permits("Abcdef12\n"));
    assert!(!Policy::for_passwords().permits("Abcd\u{e9}f12"));
    assert!(!Policy::for_names().permits("al ice"));
}

#[test]
fn a_long_text_with_an_allowed_run_inside_is_still_refused() {
    assert!(!Policy::for_passwords().permits("  Abcdef12  "));
    assert!(!Policy::for_names().permits("alice smith"));
}

#[test]
fn length_counts_characters() {
    // eight characters, all allowed
    assert!(Policy::for_passwords().permits("12345678"));
    // a policy of its own making counts the same way
    let rule = Policy { min_len: 1, max_len: 2 };
    assert!(rule.permits("ab"));
    assert!(!rule.permits("abc"));
    assert!(!rule.permits(""));
}

#[test]
fn a_refused_password_names_its_field() {
    match validate_password("short") {
        Err(MyError::UnprocessableEntity(fields)) => {
            assert_eq!(fields.len(), 1);
            assert_eq!(fields[0].field, "password");
            assert_eq!(
                fields[0].messages,
                vec!["must be 8-30 characters in alphabet, numbers or symbols".to_string()]
            );
        }
        other => panic!("unexpected: {other:?}"),
    }
    assert_eq!(validate_password("Abcdef12"), Ok(()));
}

#[test]
fn a_refused_name_names_its_field() {
    match validate_name("a b") {
        Err(MyError::UnprocessableEntity(fields)) => {
            assert_eq!(fields.len(), 1);
            assert_eq!(fields[0].field, "name");
            assert_eq!(
                fields[0].messages,
                vec!["must be 3-15 characters in alphabet, numbers or symbols".to_string()]
            );
        }
        other => panic!("unexpected: {other:?}"),
    }
    assert_eq!(validate_name("alice"), Ok(()));
}
