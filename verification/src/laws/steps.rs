//! What one event does to the tables of the index, table by table.

use vstd::prelude::*;
use crate::events::{OrderTerms, SwapEvent};
use crate::index::{
    lock_list_key,
    lookup,
    order_ops,
    spec_process_event,
    value_after,
    IndexOp,
    IndexState,
};

verus! {

/// Writes performed one list after another are the writes of the joined
/// list.
pub proof fn lemma_apply_concat(state: IndexState, first: Seq<IndexOp>, second: Seq<IndexOp>)
    ensures
        state.apply(first + second) == state.apply(first).apply(second),
    decreases first.len(),
{
    if first.len() == 0 {
        assert(first + second =~= second);
    } else {
        assert((first + second).drop_first() =~= first.drop_first() + second);
        lemma_apply_concat(state.apply_op(first[0]), first.drop_first(), second);
    }
}

pub proof fn lemma_apply_short(state: IndexState, a: IndexOp, b: IndexOp)
    ensures
        state.apply(Seq::empty()) == state,
        state.apply(seq![a]) == state.apply_op(a),
        state.apply(seq![a, b]) == state.apply_op(a).apply_op(b),
{
    assert(seq![a].drop_first() =~= Seq::<IndexOp>::empty());
    assert(seq![a, b].drop_first() =~= seq![b]);
    assert(seq![b].drop_first() =~= Seq::<IndexOp>::empty());
    reveal_with_fuel(IndexState::apply, 3);
}

/// The index after the writes of `order_ops`, table by table.
pub open spec fn after_order_ops(
    state: IndexState,
    terms: OrderTerms,
    recorded: bool,
    stored_value: Option<u128>,
    new_value: Option<u128>,
) -> IndexState {
    let key = terms.spec_order_key();
    let retracted = if stored_value is Some {
        state.order_list.remove(terms.spec_list_key(stored_value.unwrap()))
    } else {
        state.order_list
    };
    IndexState {
        order_static: if recorded {
            state.order_static
        } else {
            state.order_static.insert(key, terms.order)
        },
        order_value: if new_value is Some {
            state.order_value.insert(key, new_value.unwrap())
        } else if stored_value is Some {
            state.order_value.remove(key)
        } else {
            state.order_value
        },
        order_list: if new_value is Some {
            retracted.insert(terms.spec_list_key(new_value.unwrap()), terms.order_id)
        } else {
            retracted
        },
        ..state
    }
}

/// The writes of `order_ops` do what `after_order_ops` says.
pub proof fn lemma_order_ops_applied(
    state: IndexState,
    terms: OrderTerms,
    recorded: bool,
    stored_value: Option<u128>,
    new_value: Option<u128>,
)
    ensures
        state.apply(order_ops(terms, recorded, stored_value, new_value)) == after_order_ops(
            state,
            terms,
            recorded,
            stored_value,
            new_value,
        ),
{
    let key = terms.spec_order_key();
    let record = if recorded {
        Seq::<IndexOp>::empty()
    } else {
        seq![IndexOp::PutOrderStatic { key, order: terms.order }]
    };
    let retract = if stored_value is Some {
        seq![IndexOp::DeleteOrderList { entry: terms.spec_list_key(stored_value.unwrap()) }]
    } else {
        Seq::<IndexOp>::empty()
    };
    let list = if new_value is Some {
        seq![
            IndexOp::PutOrderList { entry: terms.spec_list_key(new_value.unwrap()) },
            IndexOp::PutOrderValue { key, value: new_value.unwrap() },
        ]
    } else if stored_value is Some {
        seq![IndexOp::DeleteOrderValue { key }]
    } else {
        Seq::<IndexOp>::empty()
    };
    let filler = IndexOp::DeleteOrderValue { key };
    let s1 = state.apply(record);
    let s2 = s1.apply(retract);
    let s3 = s2.apply(list);
    lemma_apply_concat(state, record + retract, list);
    lemma_apply_concat(state, record, retract);
    lemma_apply_short(state, if recorded { filler } else { record[0] }, filler);
    lemma_apply_short(s1, if stored_value is Some { retract[0] } else { filler }, filler);
    if new_value is Some {
        lemma_apply_short(s2, list[0], list[1]);
    } else {
        lemma_apply_short(s2, if stored_value is Some { list[0] } else { filler }, filler);
    }
    assert(s3 =~= after_order_ops(state, terms, recorded, stored_value, new_value));
}

/// What an order event does to the index: accepted, it performs the update
/// of `after_order_ops`; refused, nothing.
pub proof fn lemma_order_step(state: IndexState, event: SwapEvent)
    requires
        event.order_terms() is Some,
    ensures
        ({
            let terms = event.order_terms().unwrap();
            let key = terms.spec_order_key();
            let stored = lookup(state.order_value, key);
            match spec_process_event(event, state.snapshot(event.spec_reads())) {
                Ok(_) => value_after(event, stored) is Ok && state.step(event) == after_order_ops(
                    state,
                    terms,
                    state.order_static.dom().contains(key),
                    stored,
                    value_after(event, stored).unwrap(),
                ),
                Err(_) => state.step(event) == state,
            }
        }),
{
    let terms = event.order_terms().unwrap();
    let key = terms.spec_order_key();
    let stored = lookup(state.order_value, key);
    if spec_process_event(event, state.snapshot(event.spec_reads())) is Ok {
        lemma_order_ops_applied(
            state,
            terms,
            state.order_static.dom().contains(key),
            stored,
            value_after(event, stored).unwrap(),
        );
    }
}

/// What a lock event does to the index: it leaves the tables of the orders
/// alone, and writes at most the record of its lock and, for a new buy lock,
/// the entry that files it.
pub proof fn lemma_lock_step(state: IndexState, event: SwapEvent)
    requires
        event.is_lock_event(),
    ensures
        ({
            let after = state.step(event);
            let plan = event.spec_reads();
            &&& after.order_static == state.order_static
            &&& after.order_value == state.order_value
            &&& after.order_list == state.order_list
            &&& match spec_process_event(event, state.snapshot(plan)) {
                Err(_) => after == state,
                Ok(outcome) => if outcome.ops.len() == 0 {
                    after == state
                } else if plan.sell_lock is Some {
                    &&& outcome.ops[0] matches IndexOp::PutSellLock { lock_key, sell_lock }
                    &&& lock_key == plan.sell_lock.unwrap()
                    &&& after == IndexState {
                        sell_lock: state.sell_lock.insert(lock_key, sell_lock),
                        ..state
                    }
                } else {
                    &&& plan.buy_lock is Some
                    &&& outcome.ops.last() matches IndexOp::PutBuyLock { lock_key, buy_lock }
                    &&& lock_key == plan.buy_lock.unwrap()
                    &&& if let SwapEvent::BuyLocked { order_id, value, .. } = event {
                        after == IndexState {
                            buy_lock: state.buy_lock.insert(lock_key, buy_lock),
                            order_lock_list: state.order_lock_list.insert(
                                lock_list_key(lock_key, order_id, value),
                                lock_key.hashed_secret,
                            ),
                            ..state
                        }
                    } else {
                        after == IndexState {
                            buy_lock: state.buy_lock.insert(lock_key, buy_lock),
                            ..state
                        }
                    }
                },
            }
        }),
{
    let result = spec_process_event(event, state.snapshot(event.spec_reads()));
    if let Ok(outcome) = result {
        if outcome.ops.len() > 0 {
            lemma_apply_short(state, outcome.ops[0], outcome.ops.last());
            if outcome.ops.len() == 1 {
                assert(outcome.ops =~= seq![outcome.ops[0]]);
            } else {
                assert(outcome.ops =~= seq![outcome.ops[0], outcome.ops.last()]);
            }
        } else {
            assert(outcome.ops =~= Seq::<IndexOp>::empty());
        }
    }
}

} // verus!
