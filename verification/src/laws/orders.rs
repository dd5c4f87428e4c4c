//! The order books under any stream of events: the tables stay in
//! agreement, and an order holds the net sum of what was added to it and
//! taken out of it.

use vstd::prelude::*;
use crate::events::{OrderTerms, SwapEvent};
use crate::index::{lookup, spec_process_event, value_after, IndexState};
use crate::laws::steps::{lemma_lock_step, lemma_order_step};
use crate::shared::{OrderKey, OrderListKey};

verus! {

/// The index starts in agreement with itself, and knows no order yet.
pub proof fn lemma_empty_index_is_consistent(terms: OrderTerms)
    ensures
        IndexState::empty().consistent(),
        IndexState::empty().knows_as(terms),
{
}

/// Events keep the tables in agreement. Whatever is accepted or refused,
/// after an event the order books still list exactly the orders that hold a
/// value, each once and at its value: an order that was withdrawn is in no
/// order book, and a walk of an order book meets every live order once. The
/// event must name its order by the terms under which the index knows it.
pub proof fn lemma_step_keeps_consistency(state: IndexState, event: SwapEvent)
    requires
        state.consistent(),
        event.order_terms() matches Some(terms) ==> state.knows_as(terms),
    ensures
        state.step(event).consistent(),
        event.order_terms() matches Some(terms) ==> state.step(event).knows_as(terms),
{
    let after = state.step(event);
    if event.is_lock_event() {
        lemma_lock_step(state, event);
        assert(after.listed_locks_on_record());
        assert(after.valued_orders_listed());
    } else {
        let terms = event.order_terms().unwrap();
        let key = terms.spec_order_key();
        let stored = lookup(state.order_value, key);
        lemma_order_step(state, event);
        if spec_process_event(event, state.snapshot(event.spec_reads())) is Ok {
            let new_value = value_after(event, stored).unwrap();
            assert forall|entry: OrderListKey| #[trigger]
                after.order_list.dom().contains(entry) && entry.order_key() == key implies {
                &&& new_value is Some
                &&& entry == terms.spec_list_key(new_value.unwrap())
            } by {
                if new_value is None || entry != terms.spec_list_key(new_value.unwrap()) {
                    assert(state.order_list.dom().contains(entry));
                }
            }
            assert(after.listed_orders_hold_value()) by {
                assert forall|entry: OrderListKey| #[trigger]
                    after.order_list.dom().contains(entry) implies {
                    &&& after.order_value.dom().contains(entry.order_key())
                    &&& after.order_value[entry.order_key()] == entry.value
                    &&& after.order_list[entry] == entry.order_id
                } by {
                    if entry.order_key() != key {
                        assert(state.order_list.dom().contains(entry));
                    }
                }
            }
            assert(after.orders_listed_once()) by {
                assert forall|a: OrderListKey, b: OrderListKey|
                    #[trigger] after.order_list.dom().contains(a)
                        && #[trigger] after.order_list.dom().contains(b) && a.order_key()
                        == b.order_key() implies a == b by {
                    if a.order_key() != key {
                        assert(state.order_list.dom().contains(a));
                        assert(state.order_list.dom().contains(b));
                    }
                }
            }
            assert(after.valued_orders_listed()) by {
                assert forall|order: OrderKey| #[trigger]
                    after.order_value.dom().contains(order) implies {
                    &&& after.order_static.dom().contains(order)
                    &&& exists|entry: OrderListKey| #[trigger]
                        after.order_list.dom().contains(entry) && entry.order_key() == order
                } by {
                    if order == key {
                        let entry = terms.spec_list_key(new_value.unwrap());
                        assert(after.order_list.dom().contains(entry) && entry.order_key()
                            == order);
                    } else {
                        assert(state.order_value.dom().contains(order));
                        let entry = choose|entry: OrderListKey| #[trigger]
                            state.order_list.dom().contains(entry) && entry.order_key() == order;
                        assert(after.order_list.dom().contains(entry) && entry.order_key()
                            == order);
                    }
                }
            }
            assert(after.listed_locks_on_record());
        }
    }
}

/// A change of the liquidity of an order.
pub enum OrderChange {
    Added(u128),
    Removed(u128),
}

impl OrderChange {
    /// The event that reports the change for the order of `terms`.
    pub open spec fn event(self, terms: OrderTerms) -> SwapEvent {
        match self {
            OrderChange::Added(value) => SwapEvent::OrderAdded { terms, value },
            OrderChange::Removed(value) => SwapEvent::OrderRemoved { terms, value },
        }
    }

    /// What the change adds to the order; negative where it takes out.
    pub open spec fn amount(self) -> int {
        match self {
            OrderChange::Added(value) => value as int,
            OrderChange::Removed(value) => -(value as int),
        }
    }

    /// Whether an order that holds `held` takes the change: liquidity is
    /// only taken out of an order that is there and holds as much, and the
    /// total fits 128 bits.
    pub open spec fn applies_to(self, held: Option<u128>) -> bool {
        match self {
            OrderChange::Added(value) => value + (if held is Some {
                held.unwrap()
            } else {
                0
            }) <= u128::MAX,
            OrderChange::Removed(value) => held is Some && value <= held.unwrap(),
        }
    }
}

/// The index after the events of `changes`, in order.
pub open spec fn after_changes(state: IndexState, terms: OrderTerms, changes: Seq<OrderChange>) -> IndexState
    decreases changes.len(),
{
    if changes.len() == 0 {
        state
    } else {
        after_changes(state.step(changes[0].event(terms)), terms, changes.drop_first())
    }
}

/// What an order that held `held` holds after `changes`, a change that does
/// not apply left out.
pub open spec fn net_value(held: Option<u128>, changes: Seq<OrderChange>) -> Option<u128>
    decreases changes.len(),
{
    if changes.len() == 0 {
        held
    } else if changes[0].applies_to(held) {
        net_value(
            Some(((if held is Some {
                held.unwrap() as int
            } else {
                0
            }) + changes[0].amount()) as u128),
            changes.drop_first(),
        )
    } else {
        net_value(held, changes.drop_first())
    }
}

/// The sum of what `changes` add and take out.
pub open spec fn net_sum(changes: Seq<OrderChange>) -> int
    decreases changes.len(),
{
    if changes.len() == 0 {
        0
    } else {
        changes[0].amount() + net_sum(changes.drop_first())
    }
}

/// Whether each of `changes` applies in its turn.
pub open spec fn all_apply(held: Option<u128>, changes: Seq<OrderChange>) -> bool
    decreases changes.len(),
{
    if changes.len() == 0 {
        true
    } else {
        &&& changes[0].applies_to(held)
        &&& all_apply(
            Some(((if held is Some {
                held.unwrap() as int
            } else {
                0
            }) + changes[0].amount()) as u128),
            changes.drop_first(),
        )
    }
}

/// The order of `terms` is listed in the order book exactly as an order that
/// holds `held`: once, at the sort position of that value, or not at all
/// where it holds nothing.
pub open spec fn listed_at(state: IndexState, terms: OrderTerms, held: Option<u128>) -> bool {
    &&& lookup(state.order_value, terms.spec_order_key()) == held
    &&& held matches Some(value) ==> state.order_list.dom().contains(terms.spec_list_key(value))
    &&& forall|entry: OrderListKey| #[trigger]
        state.order_list.dom().contains(entry) && entry.order_key() == terms.spec_order_key() ==> held
            == Some(entry.value) && entry == terms.spec_list_key(entry.value)
}

/// However many times liquidity is added to and taken out of an order, the
/// index holds for it the net sum of the changes that applied, and lists it
/// once, at the sort position of that sum.
pub proof fn lemma_order_value_is_net_sum(
    state: IndexState,
    terms: OrderTerms,
    changes: Seq<OrderChange>,
)
    requires
        state.consistent(),
        state.knows_as(terms),
    ensures
        ({
            let held = lookup(state.order_value, terms.spec_order_key());
            let end = after_changes(state, terms, changes);
            &&& end.consistent()
            &&& end.knows_as(terms)
            &&& listed_at(end, terms, net_value(held, changes))
        }),
    decreases changes.len(),
{
    let key = terms.spec_order_key();
    let held = lookup(state.order_value, key);
    if changes.len() == 0 {
        if held is Some {
            let entry = choose|entry: OrderListKey| #[trigger]
                state.order_list.dom().contains(entry) && entry.order_key() == key;
            assert(entry == terms.spec_list_key(held.unwrap()));
        }
    } else {
        let event = changes[0].event(terms);
        let next = state.step(event);
        lemma_step_keeps_consistency(state, event);
        lemma_order_step(state, event);
        assert(lookup(next.order_value, key) == if changes[0].applies_to(held) {
            Some(((if held is Some {
                held.unwrap() as int
            } else {
                0
            }) + changes[0].amount()) as u128)
        } else {
            held
        });
        lemma_order_value_is_net_sum(next, terms, changes.drop_first());
    }
}

/// Where every change applies, the order ends with what it held plus the
/// sum of the changes.
pub proof fn lemma_net_value_is_sum(held: Option<u128>, changes: Seq<OrderChange>)
    requires
        all_apply(held, changes),
        held is Some || changes.len() > 0,
    ensures
        net_value(held, changes) == Some(
            ((if held is Some {
                held.unwrap() as int
            } else {
                0
            }) + net_sum(changes)) as u128,
        ),
        0 <= (if held is Some {
            held.unwrap() as int
        } else {
            0
        }) + net_sum(changes) <= u128::MAX,
    decreases changes.len(),
{
    if changes.len() > 0 {
        let next = Some(
            ((if held is Some {
                held.unwrap() as int
            } else {
                0
            }) + changes[0].amount()) as u128,
        );
        lemma_net_value_is_sum(next, changes.drop_first());
    }
}

/// A static record, once written, stays: no event takes it out or changes
/// it, whatever becomes of the value of its order.
pub proof fn lemma_static_record_persists(state: IndexState, event: SwapEvent, order: OrderKey)
    requires
        state.order_static.dom().contains(order),
    ensures
        state.step(event).order_static.dom().contains(order),
        state.step(event).order_static[order] == state.order_static[order],
{
    if event.is_lock_event() {
        lemma_lock_step(state, event);
    } else {
        lemma_order_step(state, event);
    }
}

/// An event about one order leaves every other order alone: its static
/// record, its value and its entries in the order books are what they were.
pub proof fn lemma_other_orders_untouched(state: IndexState, event: SwapEvent, other: OrderKey)
    requires
        event.order_terms() matches Some(terms) ==> terms.spec_order_key() != other,
    ensures
        lookup(state.step(event).order_static, other) == lookup(state.order_static, other),
        lookup(state.step(event).order_value, other) == lookup(state.order_value, other),
        forall|entry: OrderListKey|
            entry.order_key() == other ==> lookup(state.step(event).order_list, entry) == lookup(
                state.order_list,
                entry,
            ),
{
    if event.is_lock_event() {
        lemma_lock_step(state, event);
    } else {
        lemma_order_step(state, event);
    }
}

} // verus!
