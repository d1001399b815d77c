use vstd::prelude::*;

verus! {

/// Unix time of the earliest instant a UTC date-time can hold
/// (January 1 of year -262143, 00:00:00).
pub const MIN_UTC_TIMESTAMP: i64 = -8334601228800;

/// Unix time of the latest whole second a UTC date-time can hold
/// (December 31 of year 262142, 23:59:59).
pub const MAX_UTC_TIMESTAMP: i64 = 8210266876799;

/// Day number (days since 1970-01-01) of the earliest representable date.
pub const MIN_EPOCH_DAY: i64 = -96465292;

/// Day number (days since 1970-01-01) of the latest representable date.
pub const MAX_EPOCH_DAY: i64 = 95026236;

/// Whether `t` is the Unix time of a representable UTC date-time.
pub open spec fn in_utc_range(t: int) -> bool {
    MIN_UTC_TIMESTAMP <= t <= MAX_UTC_TIMESTAMP
}

/// Whether `d` is the day number of a representable date.
pub open spec fn in_day_range(d: int) -> bool {
    MIN_EPOCH_DAY <= d <= MAX_EPOCH_DAY
}

/// What the stored-timestamp parser (`%Y-%m-%d %H:%M:%S`, read as UTC) gives
/// for a text: its Unix time, or `None` when the text is not such a timestamp.
pub uninterp spec fn parsed_db_datetime(text: Seq<char>) -> Option<i64>;

/// The stored-timestamp rendering (`%Y-%m-%d %H:%M:%S`, UTC) of a Unix time.
pub uninterp spec fn db_datetime_text(t: i64) -> Seq<char>;

/// What the stored-date parser (`%Y-%m-%d`) gives for a text: its day number
/// counted from 1970-01-01, or `None` when the text is not such a date.
pub uninterp spec fn parsed_db_date(text: Seq<char>) -> Option<i64>;

/// The stored-date rendering (`%Y-%m-%d`) of a day number counted from 1970-01-01.
pub uninterp spec fn db_date_text(day: i64) -> Seq<char>;

/// The current Unix time in whole seconds.
///
/// Trusted: `chrono::Utc::now()` followed by `DateTime::timestamp`. Only the
/// range of the type is promised: a `DateTime<Utc>` lies between
/// `DateTime::<Utc>::MIN_UTC` and `MAX_UTC`. Which instant comes back is not
/// stated; it depends on the clock.
#[verifier::external_body]
pub(crate) fn now_timestamp() -> (t: i64)
    ensures
        in_utc_range(t as int),
{
    chrono::Utc::now().timestamp()
}

/// Reads a stored timestamp.
///
/// Trusted: `chrono::NaiveDateTime::parse_from_str(text, "%Y-%m-%d %H:%M:%S")`,
/// then `and_utc().timestamp()` on success. The result is named
/// (`parsed_db_datetime`); a parsed value is a `NaiveDateTime`, so its Unix
/// time lies in the representable range.
#[verifier::external_body]
pub(crate) fn parse_db_datetime(text: &str) -> (r: Option<i64>)
    ensures
        r == parsed_db_datetime(text@),
        r matches Some(t) ==> in_utc_range(t as int),
{
    match chrono::NaiveDateTime::parse_from_str(text, "%Y-%m-%d %H:%M:%S") {
        Ok(dt) => Some(dt.and_utc().timestamp()),
        Err(_) => None,
    }
}

/// Renders a Unix time as a stored timestamp.
///
/// Trusted: `chrono::DateTime::from_timestamp(t, 0)` (which is `Some` on the
/// whole representable range, the `requires`), then `naive_utc()` and
/// `format("%Y-%m-%d %H:%M:%S")`. The text is named (`db_datetime_text`).
/// Reading it back with the stored-timestamp parser gives `t` again: every
/// field is written as a number the parser reads back, the year with four
/// digits or, outside 0..=9999, with an explicit sign, which the parser of
/// `%Y` accepts with any number of digits; the time has no fraction.
#[verifier::external_body]
pub(crate) fn format_db_datetime(t: i64) -> (r: String)
    requires
        in_utc_range(t as int),
    ensures
        r@ == db_datetime_text(t),
        parsed_db_datetime(r@) == Some(t),
{
    chrono::DateTime::from_timestamp(t, 0).unwrap().naive_utc().format("%Y-%m-%d %H:%M:%S").to_string()
}

/// A Unix time in the stored-timestamp form (`%Y-%m-%d %H:%M:%S`, UTC),
/// which reads back as that time.
pub fn stored_datetime_text(t: i64) -> (r: String)
    requires
        in_utc_range(t as int),
    ensures
        r@ == db_datetime_text(t),
        parsed_db_datetime(r@) == Some(t),
{
    format_db_datetime(t)
}

/// Reads a stored date.
///
/// Trusted: `chrono::NaiveDate::parse_from_str(text, "%Y-%m-%d")`, then
/// `to_epoch_days()` on success. The result is named (`parsed_db_date`); a
/// parsed `NaiveDate` lies in the representable range.
#[verifier::external_body]
pub(crate) fn parse_db_date(text: &str) -> (r: Option<i64>)
    ensures
        r == parsed_db_date(text@),
        r matches Some(d) ==> in_day_range(d as int),
{
    match chrono::NaiveDate::parse_from_str(text, "%Y-%m-%d") {
        Ok(d) => Some(d.to_epoch_days() as i64),
        Err(_) => None,
    }
}

/// Renders a day number as a stored date.
///
/// Trusted: `chrono::NaiveDate::from_epoch_days` (which is `Some` on the whole
/// representable range, the `requires`), then `format("%Y-%m-%d")`. The text
/// is named (`db_date_text`). Reading it back with the stored-date parser
/// gives `day` again, for the reasons given at `format_db_datetime`.
#[verifier::external_body]
pub(crate) fn format_db_date(day: i64) -> (r: String)
    requires
        in_day_range(day as int),
    ensures
        r@ == db_date_text(day),
        parsed_db_date(r@) == Some(day),
{
    chrono::NaiveDate::from_epoch_days(day as i32).unwrap().format("%Y-%m-%d").to_string()
}

} // verus!
