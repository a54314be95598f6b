use vstd::prelude::*;

verus! {

/// Smallest Unix timestamp (in seconds) that chrono turns into a date: the
/// first second of year -262143.
pub const MIN_FORMATTABLE_TIMESTAMP: i64 = -8_334_601_315_200i64;

/// Largest Unix timestamp (in seconds) that chrono turns into a date: the last
/// second of year 262142.
pub const MAX_FORMATTABLE_TIMESTAMP: i64 = 8_210_266_876_799i64;

/// The text that chrono writes for the UTC date and time `timestamp` seconds
/// after the Unix epoch with the format `%Y-%m-%d %H:%M:%S`.
pub uninterp spec fn datetime_text(timestamp: i64) -> Seq<char>;

/// Calls chrono's `DateTime::from_timestamp(timestamp, 0)` and then
/// `format("%Y-%m-%d %H:%M:%S").to_string()`. The contract claims that the
/// result is [`datetime_text`] of the timestamp, and `requires` keeps the
/// timestamp inside chrono's date range (years -262143 to 262142), where
/// `from_timestamp` returns `Some`.
#[verifier::external_body]
fn format_timestamp(timestamp: i64) -> (text: String)
    requires
        MIN_FORMATTABLE_TIMESTAMP <= timestamp <= MAX_FORMATTABLE_TIMESTAMP,
    ensures
        text@ == datetime_text(timestamp),
{
    let time = chrono::DateTime::from_timestamp(timestamp, 0).unwrap();
    time.format("%Y-%m-%d %H:%M:%S").to_string()
}

/// Helpers that read the clock.
pub struct DateTimeUtils {}

impl DateTimeUtils {
    /// Calls chrono's `Utc::now()` and formats it with `%Y-%m-%d %H:%M:%S`.
    /// The result depends on the clock; the contract claims nothing of it.
    #[verifier::external_body]
    pub fn get_current_datetime_string() -> String {
        let now = chrono::Utc::now().naive_utc();
        now.format("%Y-%m-%d %H:%M:%S").to_string()
    }

    /// Calls chrono's `Utc::now()` and formats it with `%Y-%m-%d`.
    /// The result depends on the clock; the contract claims nothing of it.
    #[verifier::external_body]
    pub fn get_current_date_string() -> String {
        let now = chrono::Utc::now().naive_utc();
        now.format("%Y-%m-%d").to_string()
    }
}

/// Values that can be written as a UTC date and time.
pub trait ToDateTimeString: Sized {
    /// Whether the value lies in the range of dates that can be written.
    spec fn is_formattable(&self) -> bool;

    fn to_datetime_string(self) -> String
        requires
            self.is_formattable(),
    ;
}

impl ToDateTimeString for i64 {
    open spec fn is_formattable(&self) -> bool {
        MIN_FORMATTABLE_TIMESTAMP <= *self <= MAX_FORMATTABLE_TIMESTAMP
    }

    /// The UTC date and time `self` seconds after the Unix epoch, as
    /// `YYYY-MM-DD HH:MM:SS`.
    fn to_datetime_string(self) -> (text: String)
        ensures
            text@ == datetime_text(self),
    {
        format_timestamp(self)
    }
}

} // verus!
