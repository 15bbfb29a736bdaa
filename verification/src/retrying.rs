//! Bounded retry of a fallible action with a mandatory cleanup step run
//! between attempts.
//!
//! Policy: run the action; on success return its result at once (cleanup is
//! never run on a success path). On failure run the cleanup; if the cleanup
//! itself fails, abort immediately and surface the cleanup error, since
//! retrying against an un-cleaned state is unsafe. Otherwise retry, up to
//! `MAX_RETRIES` retries (`MAX_RETRIES + 1` attempts in all), and finally
//! return the action's last failure.
use vstd::prelude::*;

verus! {

/// How many times a failed action is retried after its first attempt.
pub const MAX_RETRIES: u64 = 3;

/// Whether the policy runs the action again, given how many retries have
/// already been spent and whether the latest attempt failed.
pub open spec fn spec_should_retry(tries: u64, action_failed: bool) -> bool {
    action_failed && tries < MAX_RETRIES
}

/// Decides whether another attempt at the action is made.
pub fn should_retry(tries: u64, action_failed: bool) -> (r: bool)
    ensures
        r == spec_should_retry(tries, action_failed),
{
    action_failed && tries < MAX_RETRIES
}

/// Runs `action` until it succeeds or the attempt budget is spent, running
/// `cleanup` after every failed attempt and aborting on a cleanup failure.
///
/// The result is pinned to the two operations' own postconditions: an `Ok`
/// is an outcome of `action`; an `Err` is an outcome of `action` (the last
/// failed attempt) or of `cleanup` (an aborted run). When `action` cannot
/// fail, success is owed; when `cleanup` cannot fail, any failure is the
/// action's own; and when both can only fail, the cleanup's error is the
/// one reported — a cleanup failure outranks the action's.
pub fn retry<T, E, F: Fn() -> Result<T, E>, C: Fn() -> Result<(), E>>(
    action: F,
    cleanup: C,
) -> (r: Result<T, E>)
    requires
        call_requires(action, ()),
        call_requires(cleanup, ()),
    ensures
        r matches Ok(t) ==> call_ensures(action, (), Ok(t)),
        r matches Err(e) ==> (call_ensures(action, (), Err(e)) || call_ensures(
            cleanup,
            (),
            Err(e),
        )),
        (forall|o: Result<T, E>| call_ensures(action, (), o) ==> o is Ok) ==> r is Ok,
        ((forall|o: Result<(), E>| call_ensures(cleanup, (), o) ==> o is Ok) && r is Err)
            ==> call_ensures(action, (), r),
        ((forall|o: Result<T, E>| call_ensures(action, (), o) ==> o is Err) && (forall|
            o: Result<(), E>,
        | call_ensures(cleanup, (), o) ==> o is Err)) ==> (r matches Err(e) && call_ensures(
            cleanup,
            (),
            Err(e),
        )),
{
    let mut tries: u64 = 0;

    loop
        invariant
            call_requires(action, ()),
            call_requires(cleanup, ()),
            tries <= MAX_RETRIES,
        decreases MAX_RETRIES - tries,
    {
        let result = action();
        let failed = result.is_err();

        if failed {
            match cleanup() {
                Ok(()) => {},
                Err(e) => {
                    return Err(e);
                },
            }
        }

        if should_retry(tries, failed) {
            tries = tries + 1;
        } else {
            return result;
        }
    }
}

} // verus!
