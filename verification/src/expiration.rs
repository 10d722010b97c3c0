use vstd::prelude::*;

use crate::text::{decimal, decimal_string, join2, join3};

verus! {

/// Days before expiration from which a warning is shown.
pub const DEFAULT_EXPIRATION_WARNING_DAYS: i64 = 14;

/// A calendar day, as its Julian day number.
#[derive(Debug, Clone, Copy, PartialEq, Eq, Structural)]
pub struct DayNumber {
    pub julian_day: i32,
}

/// Where an expiration date stands relative to today.
#[derive(Debug, Clone, Copy, PartialEq, Eq, Structural)]
pub enum ExpirationStatus {
    NoExpiration,
    Valid,
    Warning { days_remaining: i64 },
    ExpiresToday,
    Expired { days_expired: i64 },
}

/// The format of an expiration date, in `time`'s format-description
/// language.
pub const DATE_FORMAT: &'static str = "[year]-[month]-[day]";

/// The Julian day number of the date that `time::Date::parse` reads from
/// `text` with the format `description`, or `None` when `time` rejects the
/// description or the text.
pub uninterp spec fn parsed_julian_day(text: Seq<char>, description: Seq<char>) -> Option<i32>;

/// The Julian day number of an expiration date written as `DATE_FORMAT`.
pub open spec fn parsed_iso_julian_day(text: Seq<char>) -> Option<i32> {
    parsed_julian_day(text, DATE_FORMAT@)
}

/// `time::format_description::parse` of `description`, then
/// `time::Date::parse` of `value` with it; the date is returned as its
/// Julian day (`Date::to_julian_day`). The contract only names the result:
/// which texts `time` accepts is not restated here.
#[verifier::external_body]
fn parse_date(value: &str, description: &str) -> (day: Option<i32>)
    ensures
        day == parsed_julian_day(value@, description@),
{
    let format = time::format_description::parse(description).ok()?;
    time::Date::parse(value, &format).ok().map(|date| date.to_julian_day())
}

/// Reads an expiration date written as `DATE_FORMAT`.
fn parse_iso_date(value: &str) -> (day: Option<i32>)
    ensures
        day == parsed_iso_julian_day(value@),
{
    parse_date(value, DATE_FORMAT)
}

/// Today's date in UTC, from `time::OffsetDateTime::now_utc`.
#[verifier::external_body]
fn today_julian_day() -> i32 {
    time::OffsetDateTime::now_utc().date().to_julian_day()
}

pub open spec fn invalid_date_message(value: Seq<char>) -> Seq<char> {
    "expiration date '"@ + value
        + "' is invalid; expected a real calendar date in YYYY-MM-DD format"@
}

/// Reads an expiration date written as YYYY-MM-DD.
pub fn parse_expiration_date(value: &str) -> (result: Result<DayNumber, String>)
    ensures
        match parsed_iso_julian_day(value@) {
            Some(day) => result == Ok::<DayNumber, String>(DayNumber { julian_day: day }),
            None => result matches Err(message) && message@ == invalid_date_message(value@),
        },
{
    match parse_iso_date(value) {
        Some(day) => Ok(DayNumber { julian_day: day }),
        None => Err(
            join3(
                "expiration date '",
                value,
                "' is invalid; expected a real calendar date in YYYY-MM-DD format",
            ),
        ),
    }
}

/// Checks an optional expiration date; no date is always acceptable.
pub fn validate_expiration_date(value: Option<&str>) -> (result: Result<(), String>)
    ensures
        match value {
            None => result is Ok,
            Some(text) => match parsed_iso_julian_day(text@) {
                Some(_) => result is Ok,
                None => result matches Err(message) && message@ == invalid_date_message(text@),
            },
        },
{
    match value {
        Some(text) => match parse_expiration_date(text) {
            Ok(_) => Ok(()),
            Err(message) => Err(message),
        },
        None => Ok(()),
    }
}

/// The status of a date `days_remaining` days ahead, with a warning window
/// of `warning_days` days.
pub open spec fn status_for(days_remaining: int, warning_days: int) -> ExpirationStatus {
    if days_remaining < 0 {
        ExpirationStatus::Expired { days_expired: (-days_remaining) as i64 }
    } else if days_remaining == 0 {
        ExpirationStatus::ExpiresToday
    } else if days_remaining <= warning_days {
        ExpirationStatus::Warning { days_remaining: days_remaining as i64 }
    } else {
        ExpirationStatus::Valid
    }
}

pub open spec fn spec_expiration_status(
    expires_on: Option<Seq<char>>,
    today: DayNumber,
    warning_days: i64,
) -> Result<ExpirationStatus, Seq<char>> {
    if warning_days < 0 {
        Err("expiration warning days cannot be negative"@)
    } else {
        match expires_on {
            None => Ok(ExpirationStatus::NoExpiration),
            Some(text) => match parsed_iso_julian_day(text) {
                None => Err(invalid_date_message(text)),
                Some(day) => Ok(status_for(day - today.julian_day, warning_days as int)),
            },
        }
    }
}

pub open spec fn option_str(value: Option<&str>) -> Option<Seq<char>> {
    match value {
        Some(text) => Some(text@),
        None => None,
    }
}

pub open spec fn status_matches(
    result: Result<ExpirationStatus, String>,
    expected: Result<ExpirationStatus, Seq<char>>,
) -> bool {
    match (result, expected) {
        (Ok(status), Ok(wanted)) => status == wanted,
        (Err(message), Err(wanted)) => message@ == wanted,
        _ => false,
    }
}

/// Classifies an optional expiration date relative to `today`.
pub fn expiration_status(expires_on: Option<&str>, today: DayNumber, warning_days: i64) -> (result:
    Result<ExpirationStatus, String>)
    ensures
        status_matches(result, spec_expiration_status(option_str(expires_on), today, warning_days)),
{
    if warning_days < 0 {
        return Err(String::from_str("expiration warning days cannot be negative"));
    }
    let text = match expires_on {
        None => {
            return Ok(ExpirationStatus::NoExpiration);
        },
        Some(text) => text,
    };
    let expiration_date = match parse_expiration_date(text) {
        Ok(day) => day,
        Err(message) => {
            return Err(message);
        },
    };
    let days_remaining: i64 = expiration_date.julian_day as i64 - today.julian_day as i64;
    if days_remaining < 0 {
        return Ok(ExpirationStatus::Expired { days_expired: -days_remaining });
    }
    if days_remaining == 0 {
        return Ok(ExpirationStatus::ExpiresToday);
    }
    if days_remaining <= warning_days {
        return Ok(ExpirationStatus::Warning { days_remaining });
    }
    Ok(ExpirationStatus::Valid)
}

/// Today's date in UTC.
pub fn today() -> (day: DayNumber) {
    DayNumber { julian_day: today_julian_day() }
}

/// Classifies an optional expiration date relative to today's date in UTC.
pub fn current_expiration_status(expires_on: Option<&str>, warning_days: i64) -> (result: Result<
    ExpirationStatus,
    String,
>)
    ensures
        exists|today: DayNumber|
            status_matches(
                result,
                #[trigger] spec_expiration_status(option_str(expires_on), today, warning_days),
            ),
{
    expiration_status(expires_on, today(), warning_days)
}

/// Decimal text of a signed count.
pub open spec fn signed_decimal(n: int) -> Seq<char> {
    if n < 0 {
        seq!['-'] + decimal((-n) as nat)
    } else {
        decimal(n as nat)
    }
}

fn signed_decimal_string(n: i64) -> (text: String)
    ensures
        text@ == signed_decimal(n as int),
{
    if n < 0 {
        let magnitude: u64 = (-(n as i128)) as u64;
        let digits = decimal_string(magnitude);
        let text = join2("-", digits.as_str());
        proof {
            reveal_strlit("-");
        }
        assert(text@ =~= signed_decimal(n as int));
        text
    } else {
        decimal_string(n as u64)
    }
}

/// The overlay warning shown for a status, if any.
pub open spec fn spec_warning_message(status: ExpirationStatus) -> Option<Seq<char>> {
    match status {
        ExpirationStatus::NoExpiration | ExpirationStatus::Valid => None,
        ExpirationStatus::Warning { days_remaining } => {
            if days_remaining == 1 {
                Some("Password expires in 1 day"@)
            } else {
                Some("Password expires in "@ + signed_decimal(days_remaining as int) + " days"@)
            }
        },
        ExpirationStatus::ExpiresToday => Some("Password expires today"@),
        ExpirationStatus::Expired { days_expired } => {
            if days_expired == 1 {
                Some("Password expired 1 day ago"@)
            } else {
                Some("Password expired "@ + signed_decimal(days_expired as int) + " days ago"@)
            }
        },
    }
}

/// The warning text for a status, with singular and plural day counts.
pub fn warning_message(status: ExpirationStatus) -> (message: Option<String>)
    ensures
        match (message, spec_warning_message(status)) {
            (Some(text), Some(expected)) => text@ == expected,
            (None, None) => true,
            _ => false,
        },
{
    match status {
        ExpirationStatus::NoExpiration | ExpirationStatus::Valid => None,
        ExpirationStatus::Warning { days_remaining } => {
            if days_remaining == 1 {
                Some(String::from_str("Password expires in 1 day"))
            } else {
                let count = signed_decimal_string(days_remaining);
                Some(join3("Password expires in ", count.as_str(), " days"))
            }
        },
        ExpirationStatus::ExpiresToday => Some(String::from_str("Password expires today")),
        ExpirationStatus::Expired { days_expired } => {
            if days_expired == 1 {
                Some(String::from_str("Password expired 1 day ago"))
            } else {
                let count = signed_decimal_string(days_expired);
                Some(join3("Password expired ", count.as_str(), " days ago"))
            }
        },
    }
}

/// A warning shows the count of days it was given: one day left reads
/// "Password expires in 1 day", and every other count `n` reads "Password
/// expires in `n` days", `n` in decimal (with a minus sign if negative).
/// Likewise one day past reads "Password expired 1 day ago" and every
/// other count `n` "Password expired `n` days ago".
pub proof fn lemma_warning_shows_the_count(days: i64)
    ensures
        days == 1 ==> spec_warning_message(ExpirationStatus::Warning { days_remaining: days })
            == Some("Password expires in 1 day"@),
        days != 1 && days >= 0 ==> spec_warning_message(
            ExpirationStatus::Warning { days_remaining: days },
        ) == Some("Password expires in "@ + decimal(days as nat) + " days"@),
        days < 0 ==> spec_warning_message(ExpirationStatus::Warning { days_remaining: days })
            == Some("Password expires in -"@ + decimal((-days) as nat) + " days"@),
        days == 1 ==> spec_warning_message(ExpirationStatus::Expired { days_expired: days })
            == Some("Password expired 1 day ago"@),
        days != 1 && days >= 0 ==> spec_warning_message(
            ExpirationStatus::Expired { days_expired: days },
        ) == Some("Password expired "@ + decimal(days as nat) + " days ago"@),
{
    reveal_strlit("Password expires in -");
    reveal_strlit("Password expires in ");
    if days < 0 {
        assert("Password expires in "@ + (seq!['-'] + decimal((-days) as nat))
            =~= "Password expires in -"@ + decimal((-days) as nat));
        assert(("Password expires in "@ + (seq!['-'] + decimal((-days) as nat))) + " days"@
            =~= ("Password expires in -"@ + decimal((-days) as nat)) + " days"@);
    }
}

} // verus!
