//! A sleep that another loop can cut short.
//!
//! The sleeper shares a flag with whoever may wake it. It parks on a
//! condition variable; each time it wakes, for whatever reason, it looks at
//! the flag and at the clock and decides here whether to park again.

use vstd::prelude::*;

verus! {

/// The time that a sleeper has left to sleep when it finds the flag at
/// `cancelled`, `elapsed` nanoseconds into a sleep of `max_wait`
/// nanoseconds. `None` says that the sleep is over: because it was
/// cancelled, however much time was left, or because its time is up.
pub open spec fn time_left(cancelled: bool, elapsed: nat, max_wait: nat) -> Option<nat> {
    if !cancelled && elapsed < max_wait {
        Some((max_wait - elapsed) as nat)
    } else {
        None
    }
}

/// One look of a sleeper at the flag and the clock.
///
/// `cancelled` is the shared flag, held under its lock; `elapsed` is the
/// time since the sleep began and `max_wait` its full length, both in
/// nanoseconds. The result is the time to park for, or `None` where the
/// sleep is over. The flag is lowered on every return, so that a signal
/// ends one sleep and not the next.
pub fn cancellable_sleep(cancelled: &mut bool, elapsed: u128, max_wait: u128) -> (remaining:
    Option<u128>)
    ensures
        !*final(cancelled),
        match time_left(*old(cancelled), elapsed as nat, max_wait as nat) {
            Some(nanos) => remaining == Some(nanos as u128) && nanos <= u128::MAX,
            None => remaining is None,
        },
{
    if !*cancelled && elapsed < max_wait {
        Some(max_wait - elapsed)
    } else {
        *cancelled = false;
        None
    }
}

/// Raises the flag, so that the sleeper's next look ends its sleep.
pub fn cancel_sleep(cancelled: &mut bool)
    ensures
        *final(cancelled),
{
    *cancelled = true;
}

/// A sleeper that finds the flag raised stops sleeping at once, however
/// long the sleep and however little of it has passed.
pub proof fn lemma_cancelled_sleep_ends(elapsed: nat, max_wait: nat)
    ensures
        time_left(true, elapsed, max_wait) is None,
{
}

/// A sleep that starts with the flag lowered, as every sleep leaves it,
/// has its whole length ahead of it.
pub proof fn lemma_fresh_sleep_is_whole(max_wait: nat)
    requires
        max_wait > 0,
    ensures
        time_left(false, 0, max_wait) == Some(max_wait),
{
}

/// A sleeper never parks beyond the end of its sleep: the time it is told
/// to park for ends exactly when the sleep does, and there is some of it.
pub proof fn lemma_park_ends_with_the_sleep(cancelled: bool, elapsed: nat, max_wait: nat)
    ensures
        time_left(cancelled, elapsed, max_wait) matches Some(nanos) ==> nanos > 0 && elapsed
            + nanos == max_wait,
{
}

/// Without a signal a sleep ends exactly when its time is up.
pub proof fn lemma_undisturbed_sleep(elapsed: nat, max_wait: nat)
    ensures
        time_left(false, elapsed, max_wait) is None <==> elapsed >= max_wait,
{
}

} // verus!
