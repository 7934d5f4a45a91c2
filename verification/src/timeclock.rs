//! Clock readings, behind trusted wrappers: timestamps for printed
//! documents and temporary file names, and a nanosecond reading used to
//! vary generated barcodes. Nothing is promised of a clock value beyond
//! its documented range; every caller is verified for every reading.

use vstd::prelude::*;

verus! {

/// Relies on `std::time::SystemTime::now` and
/// `Duration::subsec_nanos`, which is documented to return the
/// fractional part of the second, always below one billion.
#[verifier::external_body]
pub(crate) fn subsec_nanos_now() -> (r: u32)
    ensures
        r < 1_000_000_000,
{
    std::time::SystemTime::now().duration_since(std::time::SystemTime::UNIX_EPOCH)
        .unwrap_or_default()
        .subsec_nanos()
}

/// Relies on `std::time::SystemTime::now` and `Duration::as_millis`:
/// milliseconds since the epoch, truncated to sixty-four bits. The
/// value depends on the clock; callers state nothing about it.
#[verifier::external_body]
pub(crate) fn epoch_millis_now() -> (r: u64)
{
    std::time::SystemTime::now().duration_since(std::time::SystemTime::UNIX_EPOCH)
        .unwrap_or_default()
        .as_millis() as u64
}

/// Relies on `chrono::Local::now`, formatted as
/// `%Y-%m-%d %H:%M:%S`. The text depends on the clock and time zone;
/// callers state nothing about it.
#[verifier::external_body]
pub(crate) fn now_timestamp() -> (r: String)
{
    chrono::Local::now().format("%Y-%m-%d %H:%M:%S").to_string()
}

} // verus!
