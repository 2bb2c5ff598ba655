//! The pacing policy: a minimum interval between successive posts.
//!
//! The limiter does not read a clock and does not sleep. Its caller hands it
//! readings of a monotonic clock, in nanoseconds from an origin of the
//! caller's choice, and sleeps for as long as the limiter asks.

use vstd::prelude::*;

verus! {

/// Interval (in ms) between posts, after the service's guidance of about
/// one message per second for incoming webhooks.
pub const POST_INTERVAL: u64 = 1000;

/// Nanoseconds in a millisecond.
pub const NANOS_PER_MILLI: u64 = 1_000_000;

/// The interval between posts in the unit of the clock readings.
pub const POST_INTERVAL_NANOS: u64 = POST_INTERVAL * NANOS_PER_MILLI;

/// Time gone by from `previous` to `now`. A reading that lies before
/// `previous` counts as no time at all.
pub open spec fn elapsed_since(previous: u64, now: u64) -> nat {
    if now >= previous {
        (now - previous) as nat
    } else {
        0
    }
}

/// How long a caller that reads `now` has to wait before it may post, where
/// `previous` is the time of the last post, if there was one.
pub open spec fn wait_before_post(previous: Option<u64>, now: u64) -> nat {
    match previous {
        None => 0,
        Some(p) => if elapsed_since(p, now) < POST_INTERVAL_NANOS {
            (POST_INTERVAL_NANOS - elapsed_since(p, now)) as nat
        } else {
            0
        },
    }
}

/// Remembers when the last post was let through.
#[derive(Clone, Copy, Debug)]
pub struct Limiter {
    previous: Option<u64>,
}

impl View for Limiter {
    type V = Option<u64>;

    /// The clock reading of the most recent acquire, if there was one.
    closed spec fn view(&self) -> Option<u64> {
        self.previous
    }
}

impl Limiter {
    /// A limiter that has let nothing through yet.
    pub fn new() -> (limiter: Limiter)
        ensures
            limiter@ is None,
    {
        Limiter { previous: None }
    }

    /// The clock reading of the most recent acquire.
    pub fn previous(&self) -> (previous: Option<u64>)
        ensures
            previous == self@,
    {
        self.previous
    }

    /// The nanoseconds to sleep before the next post, given the clock reading
    /// `now`: nothing before the first post, otherwise what is missing from
    /// a full interval since the last one.
    pub fn wait(&self, now: u64) -> (nanos: u64)
        ensures
            nanos == wait_before_post(self@, now),
    {
        match self.previous {
            None => 0,
            Some(previous) => {
                let elapsed: u64 = if now >= previous {
                    now - previous
                } else {
                    0
                };
                if elapsed < POST_INTERVAL_NANOS {
                    POST_INTERVAL_NANOS - elapsed
                } else {
                    0
                }
            },
        }
    }

    /// Records that a post is let through at the clock reading `now`, which
    /// is taken after the sleep, so that oversleeping never shortens the
    /// interval that follows.
    pub fn mark(&mut self, now: u64)
        ensures
            final(self)@ == Some(now),
    {
        self.previous = Some(now);
    }
}

impl Default for Limiter {
    fn default() -> (limiter: Limiter)
        ensures
            limiter@ is None,
    {
        Limiter::new()
    }
}

/// Nothing is waited for before the first post.
pub proof fn lemma_first_post_is_immediate(now: u64)
    ensures
        wait_before_post(None, now) == 0,
{
}

/// Successive posts are at least one interval apart: on a clock that never
/// runs backwards, a caller that read `asked`, slept at least as long as it
/// was told to and then read `resumed`, resumes an interval or more after
/// the `previous` post.
pub proof fn lemma_posts_spaced(previous: u64, asked: u64, resumed: u64)
    requires
        previous <= asked,
        asked + wait_before_post(Some(previous), asked) <= resumed,
    ensures
        resumed - previous >= POST_INTERVAL_NANOS,
{
}

} // verus!
