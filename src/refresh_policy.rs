//! When the cached keys are stale, and when a failed validation may trigger
//! another fetch. Instants are seconds since the Unix epoch; intervals are
//! seconds.
use vstd::prelude::*;

verus! {

/// True when the keys have never been fetched, or were fetched more than
/// `interval` seconds before `now`.
pub open spec fn stale(last_refresh: Option<i64>, now: i64, interval: i64) -> bool {
    match last_refresh {
        None => true,
        Some(t) => now - t > interval,
    }
}

/// True when no reactive fetch has happened yet, or the last one lies more
/// than `cooldown` seconds before `now`.
pub open spec fn retry_allowed(last_retry: Option<i64>, now: i64, cooldown: i64) -> bool {
    match last_retry {
        None => true,
        Some(t) => now - t > cooldown,
    }
}

/// Whether more than `span` seconds separate `since` from `now`, computed
/// without overflow.
fn elapsed_more_than(since: i64, now: i64, span: i64) -> (r: bool)
    ensures
        r == (now - since > span),
{
    (now as i128) - (since as i128) > (span as i128)
}

/// Decides whether the cached keys must be fetched again before use.
pub fn is_stale(last_refresh: Option<i64>, now: i64, interval: i64) -> (r: bool)
    ensures
        r == stale(last_refresh, now, interval),
{
    match last_refresh {
        None => true,
        Some(t) => elapsed_more_than(t, now, interval),
    }
}

/// Decides whether a failed validation may fetch the keys again.
pub fn may_retry(last_retry: Option<i64>, now: i64, cooldown: i64) -> (r: bool)
    ensures
        r == retry_allowed(last_retry, now, cooldown),
{
    match last_retry {
        None => true,
        Some(t) => elapsed_more_than(t, now, cooldown),
    }
}

} // verus!
