//! Time utilities

use vstd::prelude::*;

verus! {

/// Monotonic instants from the standard library, opaque to specifications.
#[verifier::external_type_specification]
#[verifier::external_body]
pub struct ExInstant(std::time::Instant);

/// Read the monotonic clock.
///
/// Relies on `std::time::Instant::now`; nothing can be promised of a
/// clock reading.
#[verifier::external_body]
pub(crate) fn instant_now() -> std::time::Instant {
    std::time::Instant::now()
}

/// Get the current wall-clock timestamp in milliseconds.
///
/// Relies on `chrono::Utc::now`; nothing can be promised of a clock
/// reading.
#[verifier::external_body]
pub fn current_timestamp_ms() -> i64 {
    chrono::Utc::now().timestamp_millis()
}

/// What formatting a millisecond timestamp yields: the calendar rendering
/// `%Y-%m-%d %H:%M:%S%.3f` of that instant, a function of the timestamp
/// alone; a timestamp outside chrono's calendar range yields empty text.
pub uninterp spec fn formatted_datetime_of(ms: i64) -> Seq<char>;

/// Format a wall-clock timestamp, given in milliseconds, as a calendar
/// date and time.
///
/// Relies on `chrono::DateTime::from_timestamp_millis` and its formatter:
/// the rendering depends on the timestamp alone.
#[verifier::external_body]
pub fn format_datetime(ms: i64) -> (r: String)
    ensures
        r@ == formatted_datetime_of(ms),
{
    match chrono::DateTime::<chrono::Utc>::from_timestamp_millis(ms) {
        Some(dt) => dt.format("%Y-%m-%d %H:%M:%S%.3f").to_string(),
        None => String::new(),
    }
}

/// Milliseconds elapsed since the given instant.
///
/// Relies on `std::time::Instant::elapsed`; nothing can be promised of a
/// clock reading.
#[verifier::external_body]
pub fn elapsed_ms(start: std::time::Instant) -> u128 {
    start.elapsed().as_millis()
}

/// Milliseconds elapsed since the given instant, clamped to 64 bits.
///
/// Relies on `std::time::Instant::elapsed`; nothing can be promised of a
/// clock reading.
#[verifier::external_body]
pub(crate) fn instant_elapsed_ms_u64(start: &std::time::Instant) -> u64 {
    let ms = start.elapsed().as_millis();
    if ms > u64::MAX as u128 {
        u64::MAX
    } else {
        ms as u64
    }
}

} // verus!
