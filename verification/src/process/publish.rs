//! The bounded-retry discipline of the publisher: a delivery is attempted
//! up to a fixed number of times, then given up.

use vstd::prelude::*;
use crate::errors::PublishError;

verus! {

/// How many delivery attempts a message gets in all.
pub open spec fn max_publish_attempts() -> int {
    3
}

/// Tracks the attempts spent on delivering one message.
#[derive(Debug, Clone, Copy, PartialEq, Eq, Structural)]
pub struct RetryPolicy {
    pub attempts: u8,
    pub max_attempts: u8,
}

impl RetryPolicy {
    /// A fresh policy for one message: no attempts spent, three allowed.
    pub fn new() -> (r: Self)
        ensures
            r.attempts == 0,
            r.max_attempts as int == max_publish_attempts(),
    {
        RetryPolicy { attempts: 0, max_attempts: 3 }
    }

    /// Books one failed attempt; the result says whether another attempt is
    /// allowed.
    pub fn on_failure(&mut self) -> (retry: bool)
        requires
            old(self).attempts < old(self).max_attempts,
        ensures
            final(self).attempts == old(self).attempts + 1,
            final(self).max_attempts == old(self).max_attempts,
            retry == (final(self).attempts < final(self).max_attempts),
    {
        self.attempts = self.attempts + 1;
        self.attempts < self.max_attempts
    }

    /// The error surfaced when every attempt failed.
    pub fn exhausted_error(&self) -> (r: PublishError)
        ensures
            r == PublishError::RetriesExhausted(self.attempts),
    {
        PublishError::RetriesExhausted(self.attempts)
    }
}

} // verus!
