//! How long to wait before a chain is tried again.
//!
//! A subscription that drops, or a chain that does not answer, ends the
//! session of its adapter, not the adapter: it waits and connects again. The
//! wait starts short, doubles with every failure in a row up to a limit, and
//! is short again after a session that worked.

use vstd::prelude::*;

verus! {

/// The waiting time of one adapter, in milliseconds.
#[derive(Clone, Copy, Debug, PartialEq, Eq)]
pub struct Backoff {
    first: u64,
    limit: u64,
    delay: u64,
}

impl Backoff {
    /// The wait is never zero, never below the first wait and never above
    /// the limit.
    #[verifier::type_invariant]
    pub closed spec fn well_formed(self) -> bool {
        0 < self.first <= self.delay <= self.limit
    }

    /// The wait after the first failure.
    pub closed spec fn first(self) -> u64 {
        self.first
    }

    /// The longest wait.
    pub closed spec fn limit(self) -> u64 {
        self.limit
    }

    /// The wait before the next attempt.
    pub closed spec fn spec_delay(&self) -> u64 {
        self.delay
    }

    /// A policy that waits `first` milliseconds at first and never more
    /// than `limit`; `None` where `first` is zero or above `limit`.
    pub fn new(first: u64, limit: u64) -> (backoff: Option<Backoff>)
        ensures
            backoff is Some <==> 0 < first <= limit,
            backoff matches Some(b) ==> b.first() == first && b.limit() == limit && b.spec_delay()
                == first,
    {
        if 0 < first && first <= limit {
            Some(Backoff { first, limit, delay: first })
        } else {
            None
        }
    }

    /// The wait before the next attempt, in milliseconds.
    #[verifier::when_used_as_spec(spec_delay)]
    pub fn delay(&self) -> (delay: u64)
        ensures
            delay == self.spec_delay(),
            0 < self.first() <= delay <= self.limit(),
    {
        proof {
            use_type_invariant(self);
        }
        self.delay
    }

    /// What the policy is after one more failure: the wait doubled, but not
    /// beyond the limit.
    pub fn after_failure(self) -> (next: Backoff)
        ensures
            next.first() == self.first(),
            next.limit() == self.limit(),
            next.spec_delay() == if 2 * self.spec_delay() <= self.limit() {
                2 * self.spec_delay()
            } else {
                self.limit() as int
            },
    {
        proof {
            use_type_invariant(self);
        }
        let doubled = if self.delay <= self.limit / 2 {
            self.delay * 2
        } else {
            self.limit
        };
        Backoff { first: self.first, limit: self.limit, delay: doubled }
    }

    /// What the policy is after a session that worked: the wait is the
    /// first wait again.
    pub fn after_success(self) -> (next: Backoff)
        ensures
            next.first() == self.first(),
            next.limit() == self.limit(),
            next.spec_delay() == self.first(),
    {
        proof {
            use_type_invariant(self);
        }
        Backoff { first: self.first, limit: self.limit, delay: self.first }
    }
}

} // verus!
