use cap_cdts::auth::{generate_token, token_of};
use cap_cdts::clock::{
    now_rfc3339, now_unix, or_epoch, unix_to_rfc3339, ClockError, FIRST_RFC3339_SECOND,
    FIRST_SECOND, LAST_SECOND,
};
use cap_cdts::models::{level_name, normalize_level};
use cap_cdts::passcode::{
    fresh_salt, hash_passcode, hash_passcode_with, is_five_digit_passcode, verify_passcode,
    VerifyError,
};
use cap_cdts::text::{decimal_text, hex_text, signed_decimal_text};

#[test]
fn levels_are_normalized() {
    let cases: [(i32, i32); 10] = [
        (1, 1),
        (2, 2),
        (3, 3),
        (4, 4),
        (5, 5),
        (0, 3),
        (6, 5),
        (-1, 5),
        (i32::MAX, 5),
        (i32::MIN, 5),
    ];
    for (level, expected) in cases {
        assert_eq!(normalize_level(level), expected);
        assert_eq!(normalize_level(normalize_level(level)), expected);
    }
}

#[test]
fn levels_have_names() {
    assert_eq!(level_name(1), "Admin");
    assert_eq!(level_name(2), "Junior admin");
    assert_eq!(level_name(3), "Moderator");
    assert_eq!(level_name(0), "Moderator");
    assert_eq!(level_name(4), "Advanced user");
    assert_eq!(level_name(5), "Basic");
    assert_eq!(level_name(77), "Basic");
    assert_eq!(cap_cdts::auth::AuthManager::role_name(2), "Junior admin");
}

#[test]
fn numbers_are_written_in_decimal() {
    assert_eq!(decimal_text(0), "0");
    assert_eq!(decimal_text(100_000), "100000");
    assert_eq!(decimal_text(u64::MAX), u64::MAX.to_string());
    assert_eq!(signed_decimal_text(-1), "-1");
    assert_eq!(signed_decimal_text(i64::MIN), i64::MIN.to_string());
    assert_eq!(signed_decimal_text(i64::MAX), i64::MAX.to_string());
}

#[test]
fn bytes_are_written_in_hexadecimal() {
    assert_eq!(hex_text(&[]), "");
    assert_eq!(hex_text(&[0x00, 0x0f, 0xa5, 0xff]), "000fa5ff");
    assert_eq!(token_of(&[0xab; 32]), "ab".repeat(32));
}

#[test]
fn tokens_are_hexadecimal_and_differ() {
    let a = generate_token();
    let b = generate_token();
    assert_eq!(a.len(), 64);
    assert!(a.chars().all(|c| c.is_ascii_hexdigit() && !c.is_ascii_uppercase()));
    assert_ne!(a, b);
    assert_ne!(a, "0".repeat(64));
}

#[test]
fn passcodes_are_five_digits() {
    assert!(is_five_digit_passcode("00000"));
    assert!(is_five_digit_passcode("12345"));
    assert!(!is_five_digit_passcode("1234"));
    assert!(!is_five_digit_passcode("123456"));
    assert!(!is_five_digit_passcode("12a45"));
    assert!(!is_five_digit_passcode(""));
    assert!(!is_five_digit_passcode("１2345"));
    assert!(!is_five_digit_passcode(" 1234"));
}

#[test]
fn a_hash_accepts_its_own_passcode_only() {
    let hash = hash_passcode("12345").unwrap();
    assert!(hash.starts_with("$argon2id$v=19$m=19456,t=2,p=1$"));
    assert_eq!(verify_passcode(&hash, "12345"), Ok(true));
    assert_eq!(verify_passcode(&hash, "12346"), Ok(false));
}

#[test]
fn a_hash_depends_on_passcode_and_salt() {
    let salt = fresh_salt();
    assert_eq!(salt.len(), 22);
    assert_ne!(salt, fresh_salt());
    let hash = hash_passcode_with("12345", &salt).unwrap();
    assert_eq!(hash, hash_passcode_with("12345", &salt).unwrap());
    assert_ne!(hash, hash_passcode_with("54321", &salt).unwrap());
    assert_ne!(hash, hash_passcode("12345").unwrap());
    assert!(hash.contains(&salt));
}

#[test]
fn a_salt_that_is_not_base64_is_refused() {
    assert!(hash_passcode_with("12345", "!!").is_err());
}

#[test]
fn a_hash_that_does_not_parse_is_an_error() {
    let e = verify_passcode("not a hash", "12345").unwrap_err();
    assert_eq!(e, VerifyError::ParsePasscodeHash);
    assert_eq!(e.text(), "parse passcode hash");
}

#[test]
fn a_hash_with_too_many_lanes_accepts_nothing() {
    let hash = hash_passcode("12345").unwrap();
    for lanes in ["p=16777216$", "p=99999999$", "p=536870912$", "p=4294967295$"] {
        let many = hash.replace("p=1$", lanes);
        assert_ne!(many, hash);
        assert_eq!(verify_passcode(&many, "12345"), Ok(false));
    }
}

#[test]
fn the_last_lane_count_counts() {
    let hash = hash_passcode("12345").unwrap();
    let one_last = hash.replace("p=1$", "p=999999999,p=1$");
    assert_ne!(one_last, hash);
    assert_eq!(verify_passcode(&one_last, "12345"), Ok(true));
    assert_eq!(verify_passcode(&one_last, "12346"), Ok(false));
    let many_last = hash.replace("p=1$", "p=1,p=999999999$");
    assert_eq!(verify_passcode(&many_last, "12345"), Ok(false));
    let other_name = hash.replace("p=1$", "p=1,xp=999999999$");
    assert_eq!(verify_passcode(&other_name, "12345"), Ok(false));
}

#[test]
fn seconds_have_rfc3339_texts() {
    assert_eq!(unix_to_rfc3339(0).unwrap(), "1970-01-01T00:00:00Z");
    assert_eq!(unix_to_rfc3339(1_700_000_000).unwrap(), "2023-11-14T22:13:20Z");
    assert_eq!(unix_to_rfc3339(LAST_SECOND).unwrap(), "9999-12-31T23:59:59Z");
    assert_eq!(unix_to_rfc3339(FIRST_RFC3339_SECOND).unwrap(), "0000-01-01T00:00:00Z");
}

#[test]
fn seconds_without_a_text_are_the_epoch_or_an_error() {
    assert_eq!(unix_to_rfc3339(FIRST_RFC3339_SECOND - 1).unwrap(), "1970-01-01T00:00:00Z");
    assert_eq!(unix_to_rfc3339(FIRST_SECOND).unwrap(), "1970-01-01T00:00:00Z");
    assert_eq!(unix_to_rfc3339(FIRST_SECOND - 1), Err(ClockError::FromUnixTimestamp));
    assert_eq!(unix_to_rfc3339(LAST_SECOND + 1), Err(ClockError::FromUnixTimestamp));
    assert_eq!(or_epoch(None), "1970-01-01T00:00:00Z");
    assert_eq!(or_epoch(Some("x".to_string())), "x");
}

#[test]
fn the_clock_shows_the_present() {
    let second = now_unix();
    assert!(second > 1_700_000_000);
    assert!(second < LAST_SECOND);
    let text = now_rfc3339();
    assert!(text.starts_with("20"));
    assert!(text.ends_with('Z'));
    assert!(text > unix_to_rfc3339(1_700_000_000).unwrap());
}
