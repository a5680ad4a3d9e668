//! The time a record is made, in milliseconds since the Unix epoch.
use vstd::prelude::*;

verus! {

#[verifier::external_type_specification]
#[verifier::external_body]
pub struct ExSystemTime(std::time::SystemTime);

/// A reading of the system clock: whole seconds and nanoseconds after the
/// Unix epoch (`Ok`), or before it (`Err`).
pub type Reading = Result<(u64, u32), (u64, u32)>;

/// Seconds bound within which chrono represents every instant (its years
/// reach beyond 262,000 either side of the epoch).
pub const CHRONO_SECS_BOUND: i64 = 8_000_000_000_000;

/// The nanoseconds of a reading are below one second.
pub open spec fn reading_valid(t: Reading) -> bool {
    match t {
        Ok((_, n)) => n < 1_000_000_000,
        Err((_, n)) => n < 1_000_000_000,
    }
}

/// The whole second at or before the reading, counted from the epoch.
pub open spec fn reading_secs(t: Reading) -> int {
    match t {
        Ok((s, _)) => s as int,
        Err((s, n)) => if n == 0 { -(s as int) } else { -(s as int) - 1 },
    }
}

/// The nanoseconds of the reading after `reading_secs`.
pub open spec fn reading_nanos(t: Reading) -> int {
    match t {
        Ok((_, n)) => n as int,
        Err((_, n)) => if n == 0 { 0 } else { 1_000_000_000 - n },
    }
}

/// A reading in whole milliseconds since the epoch, rounded down.
pub open spec fn reading_millis(t: Reading) -> int {
    reading_secs(t) * 1000 + reading_nanos(t) / 1_000_000
}

/// Relies on std's `SystemTime::now`, the current time of the system clock.
#[verifier::external_body]
fn system_now() -> (r: std::time::SystemTime) {
    std::time::SystemTime::now()
}

/// Relies on std's `SystemTime::duration_since(UNIX_EPOCH)`: the time after
/// the epoch, or the time before it for an earlier `t`, as whole seconds and
/// the nanoseconds of `Duration::subsec_nanos`, always below one billion.
#[verifier::external_body]
fn since_epoch(t: &std::time::SystemTime) -> (r: Reading)
    ensures
        reading_valid(r),
{
    match t.duration_since(std::time::UNIX_EPOCH) {
        Ok(d) => Ok((d.as_secs(), d.subsec_nanos())),
        Err(e) => Err((e.duration().as_secs(), e.duration().subsec_nanos())),
    }
}

/// Relies on chrono's `DateTime::<Utc>::from_timestamp`, which is `None` only
/// for a day outside chrono's years or invalid nanoseconds, and its
/// `timestamp_millis`: the seconds times a thousand plus the milliseconds of
/// the nanoseconds.
#[verifier::external_body]
fn timestamp_millis(secs: i64, nanos: u32) -> (r: Option<i64>)
    requires
        nanos < 1_000_000_000,
    ensures
        r is Some ==> r->0 == secs * 1000 + nanos / 1_000_000,
        -CHRONO_SECS_BOUND <= secs <= CHRONO_SECS_BOUND ==> r is Some,
{
    chrono::DateTime::<chrono::Utc>::from_timestamp(secs, nanos).map(|t| t.timestamp_millis())
}

/// The milliseconds since the epoch of a clock reading; `None` for an invalid
/// reading or an instant chrono cannot represent, which is never one within
/// `CHRONO_SECS_BOUND` seconds of the epoch.
pub fn millis_since_epoch(t: Reading) -> (r: Option<i64>)
    ensures
        r is Some ==> reading_valid(t) && r->0 == reading_millis(t),
        reading_valid(t) && -CHRONO_SECS_BOUND <= reading_secs(t) <= CHRONO_SECS_BOUND ==> r is Some,
{
    match t {
        Ok((secs, nanos)) => {
            if nanos >= 1_000_000_000 || secs > 0x7fff_ffff_ffff_ffffu64 {
                None
            } else {
                timestamp_millis(secs as i64, nanos)
            }
        },
        Err((secs, nanos)) => {
            if nanos >= 1_000_000_000 || secs >= 0x7fff_ffff_ffff_ffffu64 {
                None
            } else if nanos == 0 {
                timestamp_millis(-(secs as i64), 0)
            } else {
                timestamp_millis(-(secs as i64) - 1, 1_000_000_000 - nanos)
            }
        },
    }
}

/// The current time in milliseconds since the epoch; `None` when the clock
/// reads an instant chrono cannot represent.
pub fn current_millis() -> (r: Option<i64>)
    ensures
        r is Some ==> exists|t: Reading| reading_valid(t) && r->0 == reading_millis(t),
{
    let t = since_epoch(&system_now());
    let r = millis_since_epoch(t);
    if r.is_some() {
        assert(reading_valid(t) && r->0 == reading_millis(t));
    }
    r
}

} // verus!
