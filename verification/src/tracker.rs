//! The swap state tracker: how a lock record answers a lock event.
//!
//! Each side of a swap is a small state machine of its own. A lock event
//! takes the record to `Locked`, an unlock event to `Unlocked`, a timeout
//! event to `TimedOut`. `Unlocked` and `TimedOut` are final: whatever arrives
//! afterwards, late or replayed, leaves the record as it is. The functions
//! here take the record that the index holds, if any, and return the record
//! to write, or `None` where nothing is to be written.

use vstd::prelude::*;
use crate::shared::{BuyLock, LockState, SellLock};

verus! {

/// Why an event was refused. The index is left as it was.
#[derive(Clone, Copy, Debug, PartialEq, Eq)]
pub enum ConsistencyError {
    /// The order is on record with other static terms.
    StaticMismatch,
    /// Liquidity was taken out of an order that is not on record.
    UnknownOrder,
    /// The order would hold more than 128 bits can count.
    ValueOverflow,
    /// More was taken out of the order than it holds.
    ValueUnderflow,
    /// A buy lock was unlocked or timed out that was never seen locked.
    MissingBuyLock,
}

impl SellLock {
    /// The record that a lock event leaves, if it changes anything.
    pub open spec fn spec_on_locked(prior: Option<SellLock>, timeout: u128) -> Option<SellLock> {
        if prior is Some && prior.unwrap().state.terminal() {
            None
        } else {
            Some(SellLock { state: LockState::Locked, timeout, secret: None })
        }
    }

    /// The record that an unlock event leaves, if it changes anything. A
    /// lock that was never seen locked is taken as not locked.
    pub open spec fn spec_on_unlocked(prior: Option<SellLock>, secret: [u8; 32]) -> Option<
        SellLock,
    > {
        let base = if prior is Some {
            prior.unwrap()
        } else {
            SellLock::unseen()
        };
        if base.state.terminal() {
            None
        } else {
            Some(SellLock { state: LockState::Unlocked, timeout: base.timeout, secret: Some(secret) })
        }
    }

    /// The record that a timeout event leaves, if it changes anything.
    pub open spec fn spec_on_timed_out(prior: Option<SellLock>) -> Option<SellLock> {
        let base = if prior is Some {
            prior.unwrap()
        } else {
            SellLock::unseen()
        };
        if base.state.terminal() {
            None
        } else {
            Some(SellLock { state: LockState::TimedOut, timeout: base.timeout, secret: base.secret })
        }
    }

    /// Works out the record that a lock event leaves; `None` where the record
    /// stays as it is.
    #[verifier::when_used_as_spec(spec_on_locked)]
    pub fn on_locked(prior: Option<SellLock>, timeout: u128) -> (next: Option<SellLock>)
        ensures
            next == Self::spec_on_locked(prior, timeout),
    {
        match prior {
            Some(lock) if lock.state.is_terminal() => None,
            _ => Some(SellLock { state: LockState::Locked, timeout, secret: None }),
        }
    }

    /// Works out the record that an unlock event leaves; `None` where the
    /// record stays as it is.
    #[verifier::when_used_as_spec(spec_on_unlocked)]
    pub fn on_unlocked(prior: Option<SellLock>, secret: [u8; 32]) -> (next: Option<SellLock>)
        ensures
            next == Self::spec_on_unlocked(prior, secret),
    {
        let base = match prior {
            Some(lock) => lock,
            None => SellLock { state: LockState::NotLocked, timeout: 0, secret: None },
        };
        if base.state.is_terminal() {
            None
        } else {
            Some(SellLock { state: LockState::Unlocked, timeout: base.timeout, secret: Some(secret) })
        }
    }

    /// Works out the record that a timeout event leaves; `None` where the
    /// record stays as it is.
    #[verifier::when_used_as_spec(spec_on_timed_out)]
    pub fn on_timed_out(prior: Option<SellLock>) -> (next: Option<SellLock>)
        ensures
            next == Self::spec_on_timed_out(prior),
    {
        let base = match prior {
            Some(lock) => lock,
            None => SellLock { state: LockState::NotLocked, timeout: 0, secret: None },
        };
        if base.state.is_terminal() {
            None
        } else {
            Some(SellLock { state: LockState::TimedOut, timeout: base.timeout, secret: base.secret })
        }
    }
}

impl BuyLock {
    /// The record that a lock event leaves, if it changes anything.
    pub open spec fn spec_on_locked(prior: Option<BuyLock>, placed: BuyLock) -> Option<BuyLock> {
        if prior is Some && prior.unwrap().state.terminal() {
            None
        } else {
            Some(BuyLock { state: LockState::Locked, ..placed })
        }
    }

    /// The record that an event leaves which ends the lock in `end`, if it
    /// changes anything. Such an event must follow a lock event: with no
    /// record to end it is refused.
    pub open spec fn spec_on_ended(prior: Option<BuyLock>, end: LockState) -> Result<
        Option<BuyLock>,
        ConsistencyError,
    > {
        if prior is None {
            Err(ConsistencyError::MissingBuyLock)
        } else if prior.unwrap().state.terminal() {
            Ok(None)
        } else {
            Ok(Some(BuyLock { state: end, ..prior.unwrap() }))
        }
    }

    /// Works out the record that a lock event leaves; `None` where the record
    /// stays as it is.
    #[verifier::when_used_as_spec(spec_on_locked)]
    pub fn on_locked(prior: Option<BuyLock>, placed: BuyLock) -> (next: Option<BuyLock>)
        ensures
            next == Self::spec_on_locked(prior, placed),
    {
        match prior {
            Some(lock) if lock.state.is_terminal() => None,
            _ => Some(
                BuyLock {
                    order_id: placed.order_id,
                    value: placed.value,
                    timeout: placed.timeout,
                    buyer: placed.buyer,
                    foreign_address: placed.foreign_address,
                    state: LockState::Locked,
                },
            ),
        }
    }

    /// Works out the record that an unlock or a timeout event leaves; `None`
    /// where the record stays as it is, an error where there is none to end.
    #[verifier::when_used_as_spec(spec_on_ended)]
    pub fn on_ended(prior: Option<BuyLock>, end: LockState) -> (next: Result<
        Option<BuyLock>,
        ConsistencyError,
    >)
        ensures
            next == Self::spec_on_ended(prior, end),
    {
        match prior {
            None => Err(ConsistencyError::MissingBuyLock),
            Some(lock) => {
                if lock.state.is_terminal() {
                    Ok(None)
                } else {
                    Ok(
                        Some(
                            BuyLock {
                                order_id: lock.order_id,
                                value: lock.value,
                                timeout: lock.timeout,
                                buyer: lock.buyer,
                                foreign_address: lock.foreign_address,
                                state: end,
                            },
                        ),
                    )
                }
            },
        }
    }
}

} // verus!
