//! Millisecond timestamps and the throttles built on them.

use vstd::prelude::*;

verus! {

/// Milliseconds from `since` to `now`; zero when the clock has not reached it.
pub open spec fn elapsed(since: u64, now: u64) -> int {
    if now >= since {
        now - since
    } else {
        0
    }
}

/// Whether `interval` has passed since `last`; nothing recorded counts as long
/// ago.
pub open spec fn due(last: Option<u64>, now: u64, interval: u64) -> bool {
    match last {
        None => true,
        Some(t) => elapsed(t, now) >= interval,
    }
}

/// `elapsed`, computed.
pub fn elapsed_since(since: u64, now: u64) -> (r: u64)
    ensures
        r == elapsed(since, now),
{
    if now >= since {
        now - since
    } else {
        0
    }
}

/// `due`, computed.
pub fn is_due(last: Option<u64>, now: u64, interval: u64) -> (r: bool)
    ensures
        r == due(last, now, interval),
{
    match last {
        None => true,
        Some(t) => elapsed_since(t, now) >= interval,
    }
}

/// Something is due once its interval has passed since it was last done, at once where it
/// never was, and not while the clock has gone back.
pub proof fn due_once_the_interval_has_passed(t: u64, now: u64, interval: u64)
    ensures
        due(None, now, interval),
        interval > 0 ==> (due(Some(t), now, interval) <==> now >= t + interval),
        now >= t ==> elapsed(t, now) == now - t,
        now < t ==> elapsed(t, now) == 0,
{
}

} // verus!
