use vstd::prelude::*;

verus! {

/// Relies on `std::time::SystemTime::now`, `SystemTime::duration_since` and chrono's
/// `DateTime::from_timestamp` and `DateTime::timestamp_millis`: the current time in
/// milliseconds since the Unix epoch. `duration_since` fails for a clock set before the
/// epoch and `from_timestamp` returns `None` outside chrono's range; either gives `None`,
/// so a value that is returned is not negative. None of these calls panics.
#[verifier::external_body]
fn read_clock_millis() -> (r: Option<i64>)
    ensures
        r matches Some(v) ==> v >= 0,
{
    let since = std::time::SystemTime::now().duration_since(std::time::UNIX_EPOCH).ok()?;
    let secs = i64::try_from(since.as_secs()).ok()?;
    chrono::DateTime::from_timestamp(secs, since.subsec_nanos()).map(|t| t.timestamp_millis())
}

/// The current time in milliseconds since the Unix epoch; a clock that cannot be read as
/// such counts as the epoch itself.
pub(crate) fn now_millis() -> (r: i64)
    ensures
        r >= 0,
{
    match read_clock_millis() {
        Some(t) => t,
        None => 0,
    }
}

} // verus!
