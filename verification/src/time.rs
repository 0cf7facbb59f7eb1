use vstd::prelude::*;

verus! {

/// Milliseconds that have passed from `t` to `now`; zero when `now` lies
/// before `t`, so the value is total even on a clock that is handed
/// out-of-order readings.
pub open spec fn spec_elapsed(t: u64, now: u64) -> u64 {
    if now >= t {
        (now - t) as u64
    } else {
        0
    }
}

/// Runtime evaluation of [`spec_elapsed`].
pub fn elapsed_ms(t: u64, now: u64) -> (r: u64)
    ensures
        r == spec_elapsed(t, now),
{
    if now >= t {
        now - t
    } else {
        0
    }
}

/// Relies on `embassy_time::Instant::now`: reads the system's monotonic clock
/// as a millisecond count since boot. Nothing is assumed about the value read;
/// every caller states what holds for an arbitrary reading.
#[verifier::external_body]
pub(crate) fn now_millis() -> u64 {
    embassy_time::Instant::now().as_millis()
}

} // verus!
