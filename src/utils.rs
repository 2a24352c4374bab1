//! Dates and message signatures, computed by chrono and hmac.
use vstd::prelude::*;

use chrono::Datelike;
use hmac::Mac;

verus! {

/// The "YYYY-MM-DD" date (UTC) of a Unix time in milliseconds, as chrono writes it.
pub uninterp spec fn millis_date_text(millis: i64) -> Seq<char>;

/// The HMAC-SHA256 tag of `message` under `key`.
pub uninterp spec fn hmac_sha256_of(key: Seq<u8>, message: Seq<u8>) -> Seq<u8>;

/// Relies on chrono::DateTime::from_timestamp_millis, which is None only
/// outside chrono's range of years (beyond ±262,000), and on its "%Y-%m-%d"
/// format.
#[verifier::external_body]
fn millis_to_date_text(millis: i64) -> (r: Option<String>)
    ensures
        r is Some ==> r->0@ == millis_date_text(millis),
        -8_000_000_000_000_000 <= millis <= 8_000_000_000_000_000 ==> r is Some,
{
    match chrono::DateTime::from_timestamp_millis(millis) {
        Some(dt) => Some(dt.format("%Y-%m-%d").to_string()),
        None => None,
    }
}

/// Relies on hmac::Hmac::<sha2::Sha256>: new_from_slice accepts a key of any
/// length, and finalize gives the 32-byte tag.
#[verifier::external_body]
fn hmac_sha256(key: &[u8], message: &[u8]) -> (r: Option<Vec<u8>>)
    ensures
        r is Some,
        r->0@ == hmac_sha256_of(key@, message@),
        r->0@.len() == 32,
{
    match <hmac::Hmac<sha2::Sha256> as Mac>::new_from_slice(key) {
        Ok(mut mac) => {
            mac.update(message);
            Some(mac.finalize().into_bytes().to_vec())
        },
        Err(_) => None,
    }
}

/// The day number (days since the start of the common era, 0001-01-01 being
/// day 1) of a "YYYY-MM-DD" date as chrono reads it; None where chrono reads
/// no such date.
pub uninterp spec fn ymd_day_number(s: Seq<char>) -> Option<i32>;

/// Relies on chrono::NaiveDate::parse_from_str with "%Y-%m-%d", and on
/// Datelike::num_days_from_ce, which depends on the date alone.
#[verifier::external_body]
fn parse_ymd_days(s: &str) -> (r: Option<i32>)
    ensures
        r == ymd_day_number(s@),
{
    match chrono::NaiveDate::parse_from_str(s, "%Y-%m-%d") {
        Ok(d) => Some(d.num_days_from_ce()),
        Err(_) => None,
    }
}

/// Relies on chrono::Utc::now: the day number of today (UTC). It depends on
/// the clock, so nothing is promised of it.
#[verifier::external_body]
fn today_day_number() -> (r: i32) {
    chrono::Utc::now().date_naive().num_days_from_ce()
}

/// A day lies outside the two weeks that end on `today`.
pub open spec fn over_two_weeks(day: int, today: int) -> bool {
    !(today - 14 <= day && day <= today)
}

/// Whether `day` lies outside the two weeks that end on `today` (both ends
/// included); a day after today is outside too.
pub fn is_over_two_weeks(day: i32, today: i32) -> (r: bool)
    ensures
        r == over_two_weeks(day as int, today as int),
{
    let start = today as i64 - 14;
    !(start <= day as i64 && day <= today)
}

/// The message of the error `check_over_two_week` returns.
pub const DATE_ERROR: &'static str = "date is not in the form YYYY-MM-DD";

/// Whether a "YYYY-MM-DD" date lies outside the last two weeks (UTC); an
/// error where the text is no such date.
pub fn check_over_two_week(date: &str) -> (r: Result<bool, String>)
    ensures
        r is Err <==> ymd_day_number(date@) is None,
        r is Ok ==> exists|today: i32| r->Ok_0 == #[trigger] over_two_weeks(
            ymd_day_number(date@)->0 as int,
            today as int,
        ),
        r is Err ==> r->Err_0@ == DATE_ERROR@,
{
    match parse_ymd_days(date) {
        Some(day) => {
            let today = today_day_number();
            let r = is_over_two_weeks(day, today);
            assert(r == over_two_weeks(ymd_day_number(date@)->0 as int, today as int));
            Ok(r)
        },
        None => Err(String::from_str(DATE_ERROR)),
    }
}

/// The message of the error `timestamp_to_date` returns.
pub const TIMESTAMP_ERROR: &'static str = "convert timestamp to date error";

/// The UTC date "YYYY-MM-DD" of a Unix time in milliseconds; an error for a
/// time beyond the range of dates.
pub fn timestamp_to_date(timestamp: i64) -> (r: Result<String, String>)
    ensures
        r is Ok ==> r->Ok_0@ == millis_date_text(timestamp),
        r is Err ==> r->Err_0@ == TIMESTAMP_ERROR@,
        -8_000_000_000_000_000 <= timestamp <= 8_000_000_000_000_000 ==> r is Ok,
{
    match millis_to_date_text(timestamp) {
        Some(d) => Ok(d),
        None => Err(String::from_str(TIMESTAMP_ERROR)),
    }
}

/// The HMAC-SHA256 tag of `message` under `key`, as the signed channels expect it.
pub fn calc_hmac_sha256(key: &[u8], message: &[u8]) -> (r: Result<Vec<u8>, String>)
    ensures
        r is Ok,
        r->Ok_0@ == hmac_sha256_of(key@, message@),
        r->Ok_0@.len() == 32,
{
    match hmac_sha256(key, message) {
        Some(tag) => Ok(tag),
        None => Err(String::from_str("invalid key length")),
    }
}

} // verus!
