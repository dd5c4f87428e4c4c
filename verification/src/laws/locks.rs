//! The life of a lock: forward only, and over once it is unlocked or timed
//! out.

use vstd::prelude::*;
use crate::events::SwapEvent;
use crate::index::{lookup, IndexState};
use crate::laws::steps::{lemma_lock_step, lemma_order_step};
use crate::shared::{LockKey, LockState};

verus! {

/// A finished sell lock stays as it is: once its record is `Unlocked` or
/// `TimedOut`, no event changes it.
pub proof fn lemma_finished_sell_lock_stays(state: IndexState, event: SwapEvent, key: LockKey)
    requires
        state.sell_lock.dom().contains(key),
        state.sell_lock[key].state.terminal(),
    ensures
        state.step(event).sell_lock.dom().contains(key),
        state.step(event).sell_lock[key] == state.sell_lock[key],
{
    if event.is_lock_event() {
        lemma_lock_step(state, event);
    } else {
        lemma_order_step(state, event);
    }
}

/// A finished buy lock stays as it is: once its record is `Unlocked` or
/// `TimedOut`, no event changes it.
pub proof fn lemma_finished_buy_lock_stays(state: IndexState, event: SwapEvent, key: LockKey)
    requires
        state.buy_lock.dom().contains(key),
        state.buy_lock[key].state.terminal(),
    ensures
        state.step(event).buy_lock.dom().contains(key),
        state.step(event).buy_lock[key] == state.buy_lock[key],
{
    if event.is_lock_event() {
        lemma_lock_step(state, event);
    } else {
        lemma_order_step(state, event);
    }
}

/// A lock event that arrives twice does what it did the first time, and no
/// more.
pub proof fn lemma_lock_event_replay(state: IndexState, event: SwapEvent)
    requires
        event.is_lock_event(),
    ensures
        state.step(event).step(event) == state.step(event),
{
    let once = state.step(event);
    lemma_lock_step(state, event);
    lemma_lock_step(once, event);
    assert(once.step(event) =~= once);
}

/// A lock event takes its lock one step along `NotLocked`, `Locked`, then
/// `Unlocked` or `TimedOut`, and never back: after the event the record is
/// the one before it, or it is in the state that the event reports.
pub proof fn lemma_lock_moves_forward(state: IndexState, event: SwapEvent)
    requires
        event.is_lock_event(),
    ensures
        ({
            let plan = event.spec_reads();
            let after = state.step(event);
            &&& plan.sell_lock matches Some(key) ==> {
                ||| lookup(after.sell_lock, key) == lookup(state.sell_lock, key)
                ||| {
                    &&& !(lookup(state.sell_lock, key) matches Some(lock) && lock.state.terminal())
                    &&& after.sell_lock.dom().contains(key)
                    &&& event is SellLocked ==> after.sell_lock[key].state == LockState::Locked
                    &&& event is SellUnlocked ==> after.sell_lock[key].state == LockState::Unlocked
                    &&& event is SellTimedOut ==> after.sell_lock[key].state == LockState::TimedOut
                }
            }
            &&& plan.buy_lock matches Some(key) ==> {
                ||| lookup(after.buy_lock, key) == lookup(state.buy_lock, key)
                ||| {
                    &&& !(lookup(state.buy_lock, key) matches Some(lock) && lock.state.terminal())
                    &&& after.buy_lock.dom().contains(key)
                    &&& event is BuyLocked ==> after.buy_lock[key].state == LockState::Locked
                    &&& event is BuyUnlocked ==> after.buy_lock[key].state == LockState::Unlocked
                    &&& event is BuyTimedOut ==> after.buy_lock[key].state == LockState::TimedOut
                }
            }
        }),
{
    lemma_lock_step(state, event);
}

} // verus!
