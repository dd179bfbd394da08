use std::time::SystemTime;
use vstd::prelude::*;

verus! {

#[verifier::external_type_specification]
#[verifier::external_body]
pub struct ExSystemTime(std::time::SystemTime);

/// The signed count of seconds from the Unix epoch, given its sign and its
/// magnitude. A magnitude beyond the range of `i64` saturates at the nearest
/// bound instead of wrapping.
pub open spec fn unix_seconds_spec(before_epoch: bool, secs: u64) -> i64 {
    if before_epoch {
        if secs as int > -(i64::MIN as int) {
            i64::MIN
        } else {
            (-(secs as int)) as i64
        }
    } else {
        if secs as int > i64::MAX as int {
            i64::MAX
        } else {
            secs as i64
        }
    }
}

/// Relies on `SystemTime::duration_since(UNIX_EPOCH)` and `Duration::as_secs`:
/// whether `tm` lies before the epoch, and the whole seconds between the two.
#[verifier::external_body]
fn epoch_offset(tm: &SystemTime) -> (bool, u64) {
    match tm.duration_since(std::time::UNIX_EPOCH) {
        Ok(d) => (false, d.as_secs()),
        Err(e) => (true, e.duration().as_secs()),
    }
}

/// Relies on `SystemTime::now`: the current time of the system clock.
#[verifier::external_body]
fn system_now() -> SystemTime {
    SystemTime::now()
}

/// Signed Unix seconds from a sign and a magnitude, saturating at the bounds
/// of `i64`.
pub fn unix_seconds(before_epoch: bool, secs: u64) -> (r: i64)
    ensures
        r == unix_seconds_spec(before_epoch, secs),
        !before_epoch && secs <= i64::MAX as u64 ==> r as int == secs as int,
        before_epoch && secs as int <= -(i64::MIN as int) ==> r as int == -(secs as int),
{
    if before_epoch {
        if secs >= 0x8000_0000_0000_0000u64 {
            i64::MIN
        } else {
            -(secs as i64)
        }
    } else {
        if secs > i64::MAX as u64 {
            i64::MAX
        } else {
            secs as i64
        }
    }
}

/// Unix seconds of a point in time: negative before 1970, whole seconds
/// truncated toward the epoch.
pub fn to_unix_timestamp(tm: SystemTime) -> i64
{
    let (before_epoch, secs) = epoch_offset(&tm);
    unix_seconds(before_epoch, secs)
}

/// Unix seconds of the present moment.
pub fn current_unix_timestamp() -> i64
{
    to_unix_timestamp(system_now())
}

} // verus!
