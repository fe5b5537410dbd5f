use firmware_update::errors::UpdaterError;
use firmware_update::pipeline::{
    basic_auth_header, extraction_marker_line, now_utc_rfc3339, parse_decimal, progress_percent,
    validate_credentials, Credentials, ProgressThrottle,
};

#[test]
fn parse_decimal_reads_plain_numbers() {
    assert_eq!(parse_decimal("0"), Some(0));
    assert_eq!(parse_decimal("1000"), Some(1000));
    assert_eq!(parse_decimal("1048576"), Some(1048576));
}

#[test]
fn parse_decimal_reads_the_largest_machine_number() {
    assert_eq!(parse_decimal("18446744073709551615"), Some(u64::MAX));
}

#[test]
fn parse_decimal_rejects_overflow() {
    assert_eq!(parse_decimal("18446744073709551616"), None);
}

#[test]
fn parse_decimal_rejects_non_digits() {
    assert_eq!(parse_decimal(""), None);
    assert_eq!(parse_decimal("12a"), None);
    assert_eq!(parse_decimal("-5"), None);
    assert_eq!(parse_decimal(" 7"), None);
}

#[test]
fn progress_percent_truncates() {
    assert_eq!(progress_percent(0, 1000), 0);
    assert_eq!(progress_percent(500, 1000), 50);
    assert_eq!(progress_percent(999, 1000), 99);
    assert_eq!(progress_percent(1, 3), 33);
}

#[test]
fn progress_percent_reaches_100_only_at_the_full_length() {
    assert_eq!(progress_percent(1000, 1000), 100);
    assert_eq!(progress_percent(1500, 1000), 100);
}

#[test]
fn progress_percent_never_decreases_with_more_data() {
    let mut last = 0;
    for kb in [0u64, 10, 250, 250, 600, 999, 1000, 2000] {
        let p = progress_percent(kb, 1000);
        assert!(p >= last);
        last = p;
    }
}

#[test]
fn throttle_fires_at_most_once_per_interval() {
    let mut throttle = ProgressThrottle::new(0, 1000);
    assert!(!throttle.poll(500));
    assert!(!throttle.poll(1000));
    assert!(throttle.poll(1001));
    assert!(!throttle.poll(1500));
    assert!(throttle.poll(2500));
}

#[test]
fn credentials_must_come_in_pairs() {
    match validate_credentials(Some("u".to_string()), Some("p".to_string())) {
        Ok(Some(c)) => {
            assert_eq!(c.username, "u");
            assert_eq!(c.password, "p");
        },
        _ => panic!("a full pair must be accepted"),
    }
    match validate_credentials(None, None) {
        Ok(None) => {},
        _ => panic!("no credentials must be accepted"),
    }
    assert_eq!(
        validate_credentials(Some("u".to_string()), None).err(),
        Some(UpdaterError::StateConflict)
    );
    assert_eq!(
        validate_credentials(None, Some("p".to_string())).err(),
        Some(UpdaterError::StateConflict)
    );
}

#[test]
fn auth_header_encodes_the_credential_pair() {
    let c = Credentials { username: "user".to_string(), password: "pass".to_string() };
    assert_eq!(basic_auth_header(&c), "Basic dXNlcjpwYXNz");
}

#[test]
fn auth_header_of_empty_credentials() {
    let c = Credentials { username: String::new(), password: String::new() };
    assert_eq!(basic_auth_header(&c), "Basic Og==");
}

#[test]
fn marker_line_ends_with_a_line_break() {
    assert_eq!(
        extraction_marker_line("2024-01-26T18:30:09Z"),
        "2024-01-26T18:30:09Z\n"
    );
}

#[test]
fn timestamp_is_not_empty() {
    let t = now_utc_rfc3339();
    assert!(!t.is_empty());
}
