use password_out::expiration::{
    expiration_status, parse_expiration_date, validate_expiration_date, warning_message, DayNumber,
    ExpirationStatus, DEFAULT_EXPIRATION_WARNING_DAYS,
};
use time::Month;

fn test_date(year: i32, month: Month, day: u8) -> DayNumber {
    let date = time::Date::from_calendar_date(year, month, day).expect("test date should be valid");
    DayNumber { julian_day: date.to_julian_day() }
}

#[test]
fn parses_valid_iso_date() {
    let parsed = parse_expiration_date("2026-08-15").expect("date should parse");

    assert_eq!(parsed, test_date(2026, Month::August, 15));
}

#[test]
fn rejects_invalid_format() {
    let error = parse_expiration_date("08/15/2026").expect_err("date should be rejected");

    assert!(error.contains("YYYY-MM-DD"));
}

#[test]
fn rejects_impossible_calendar_date() {
    assert!(parse_expiration_date("2026-02-30").is_err());
}

#[test]
fn missing_expiration_returns_no_expiration() {
    let status = expiration_status(
        None,
        test_date(2026, Month::August, 1),
        DEFAULT_EXPIRATION_WARNING_DAYS,
    )
    .expect("status should calculate");

    assert_eq!(status, ExpirationStatus::NoExpiration);
}

#[test]
fn distant_expiration_is_valid() {
    let status = expiration_status(
        Some("2026-09-01"),
        test_date(2026, Month::August, 1),
        DEFAULT_EXPIRATION_WARNING_DAYS,
    )
    .expect("status should calculate");

    assert_eq!(status, ExpirationStatus::Valid);
}

#[test]
fn expiration_inside_warning_window_returns_warning() {
    let status = expiration_status(
        Some("2026-08-10"),
        test_date(2026, Month::August, 1),
        DEFAULT_EXPIRATION_WARNING_DAYS,
    )
    .expect("status should calculate");

    assert_eq!(status, ExpirationStatus::Warning { days_remaining: 9 });
}

#[test]
fn expiration_on_warning_boundary_returns_warning() {
    let status = expiration_status(
        Some("2026-08-15"),
        test_date(2026, Month::August, 1),
        DEFAULT_EXPIRATION_WARNING_DAYS,
    )
    .expect("status should calculate");

    assert_eq!(status, ExpirationStatus::Warning { days_remaining: 14 });
}

#[test]
fn expiration_today_is_reported() {
    let status = expiration_status(
        Some("2026-08-01"),
        test_date(2026, Month::August, 1),
        DEFAULT_EXPIRATION_WARNING_DAYS,
    )
    .expect("status should calculate");

    assert_eq!(status, ExpirationStatus::ExpiresToday);
}

#[test]
fn expired_password_reports_elapsed_days() {
    let status = expiration_status(
        Some("2026-07-29"),
        test_date(2026, Month::August, 1),
        DEFAULT_EXPIRATION_WARNING_DAYS,
    )
    .expect("status should calculate");

    assert_eq!(status, ExpirationStatus::Expired { days_expired: 3 });
}

#[test]
fn warning_messages_use_correct_singular_and_plural_forms() {
    assert_eq!(
        warning_message(ExpirationStatus::Warning { days_remaining: 1 }).as_deref(),
        Some("Password expires in 1 day")
    );

    assert_eq!(
        warning_message(ExpirationStatus::Warning { days_remaining: 2 }).as_deref(),
        Some("Password expires in 2 days")
    );

    assert_eq!(
        warning_message(ExpirationStatus::Expired { days_expired: 1 }).as_deref(),
        Some("Password expired 1 day ago")
    );

    assert_eq!(
        warning_message(ExpirationStatus::Expired { days_expired: 2 }).as_deref(),
        Some("Password expired 2 days ago")
    );
}

#[test]
fn negative_warning_window_is_rejected() {
    let error = expiration_status(Some("2026-08-10"), test_date(2026, Month::August, 1), -1)
        .expect_err("negative warning window should fail");

    assert_eq!(error, "expiration warning days cannot be negative");
}

#[test]
fn the_day_after_the_window_is_valid_and_leap_days_parse() {
    let status = expiration_status(
        Some("2026-08-16"),
        test_date(2026, Month::August, 1),
        DEFAULT_EXPIRATION_WARNING_DAYS,
    )
    .unwrap();
    assert_eq!(status, ExpirationStatus::Valid);
    assert_eq!(
        parse_expiration_date("2028-02-29").unwrap(),
        test_date(2028, Month::February, 29)
    );
    assert!(validate_expiration_date(None).is_ok());
    assert!(validate_expiration_date(Some("2027-02-29")).is_err());
}

#[test]
fn no_warning_for_valid_or_undated_entries_and_today_is_reported() {
    assert_eq!(warning_message(ExpirationStatus::Valid), None);
    assert_eq!(warning_message(ExpirationStatus::NoExpiration), None);
    assert!(warning_message(ExpirationStatus::ExpiresToday).is_some());
}
