//! The wall clock.

use vstd::prelude::*;

verus! {

/// A time on the machine's clock, carried and never looked into.
#[verifier::external_type_specification]
#[verifier::external_body]
pub struct ExSystemTime(std::time::SystemTime);

/// `SystemTime::now`: whatever the machine's clock says. Nothing is claimed of it.
pub assume_specification[ std::time::SystemTime::now ]() -> (r: std::time::SystemTime);

/// Calls `SystemTime::duration_since` with the Unix epoch; `None` stands for its error, which
/// comes where the time lies before the epoch. What it gives rests on the clock alone, so
/// nothing is claimed of it.
#[verifier::external_body]
fn since_epoch(now: std::time::SystemTime) -> (r: Option<std::time::Duration>) {
    now.duration_since(std::time::UNIX_EPOCH).ok()
}

/// `Duration::as_secs`: the whole seconds of the duration.
pub assume_specification[ std::time::Duration::as_secs ](d: &std::time::Duration) -> (r: u64);

/// `Duration::subsec_nanos`: the part of the duration below a second, in nanoseconds, which is
/// always less than one second.
pub assume_specification[ std::time::Duration::subsec_nanos ](d: &std::time::Duration) -> (r: u32)
    ensures
        r < 1_000_000_000,
;

/// The whole milliseconds in `secs` seconds and `nanos` nanoseconds.
pub fn whole_millis(secs: u64, nanos: u32) -> (r: u128)
    ensures
        r == secs as int * 1000 + nanos as int / 1_000_000,
{
    secs as u128 * 1000 + nanos as u128 / 1_000_000
}

/// The milliseconds since the Unix epoch; `None` where the clock stands before it.
///
/// What comes back rests on the machine's clock: only the range of a time that the clock can
/// hold is promised.
pub fn timestamp_now() -> (r: Option<u128>)
    ensures
        r matches Some(t) ==> t <= u64::MAX as int * 1000 + 999,
{
    let reading: Option<(u64, u32)> = match since_epoch(std::time::SystemTime::now()) {
        Some(d) => Some((d.as_secs(), d.subsec_nanos())),
        None => None,
    };
    timestamp_of(reading)
}

/// The milliseconds since the Unix epoch for a reading of the clock, in seconds and nanoseconds
/// since then; `None` where the clock stood before it.
pub fn timestamp_of(reading: Option<(u64, u32)>) -> (r: Option<u128>)
    ensures
        r is Some <==> reading is Some,
        reading matches Some((secs, nanos)) ==> r matches Some(t) && t == secs as int * 1000
            + nanos as int / 1_000_000,
{
    match reading {
        Some((secs, nanos)) => Some(whole_millis(secs, nanos)),
        None => None,
    }
}

} // verus!
