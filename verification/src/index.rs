//! The index engine: what an event does to the tables of the index.
//!
//! The tables live in an ordered key-value store that the caller owns. The
//! engine never touches the store. For each event it says which records it
//! needs to see (`SwapEvent::reads`), and from what the caller then read
//! (`Snapshot`) it works out the writes to perform, in order, and whom to
//! tell (`process_event`). An event that contradicts the records is refused
//! as a whole: it yields an error and no write at all.
//!
//! What the writes do to the tables is stated on a model of the store,
//! `IndexState`, and the properties of the index are proved on that model in
//! `crate::laws`.

use vstd::prelude::*;
use crate::bytes::{be_bytes, be_value, push_be, read_be};
use crate::events::{Market, OrderTerms, SwapEvent};
use crate::shared::{
    BuyLock,
    LockKey,
    LockState,
    OrderKey,
    OrderListKey,
    OrderLockListKey,
    OrderStatic,
    SellLock,
};
use crate::tracker::ConsistencyError;

verus! {

/// One write to the index.
#[derive(Clone, Copy, Debug, PartialEq, Eq)]
pub enum IndexOp {
    /// `order_static[key] = order`.
    PutOrderStatic { key: OrderKey, order: OrderStatic },
    /// `order_value[key] = value`, as 16 bytes, big-endian.
    PutOrderValue { key: OrderKey, value: u128 },
    /// `order_value[key]` is taken out.
    DeleteOrderValue { key: OrderKey },
    /// `order_list[entry] = entry.order_id`.
    PutOrderList { entry: OrderListKey },
    /// `order_list[entry]` is taken out.
    DeleteOrderList { entry: OrderListKey },
    /// `order_lock_list[filed] = filed.hashed_secret`.
    PutOrderLockList { filed: OrderLockListKey },
    /// `buy_lock[lock_key] = buy_lock`.
    PutBuyLock { lock_key: LockKey, buy_lock: BuyLock },
    /// `sell_lock[lock_key] = sell_lock`.
    PutSellLock { lock_key: LockKey, sell_lock: SellLock },
}

/// The tables of the index.
#[derive(Clone, Copy, Debug, PartialEq, Eq)]
pub enum Table {
    OrderStatic,
    OrderValue,
    OrderList,
    OrderLockList,
    BuyLock,
    SellLock,
}

/// What changed, for those who watch the index: enough to know what to ask
/// for again.
#[derive(Clone, Copy, Debug, PartialEq, Eq)]
pub enum Notice {
    /// The order book of this asset pair changed.
    OrderBook { market: Market },
    /// This order or one of its locks changed.
    Order { key: OrderKey },
}

/// The records that an event needs to see before it can be applied.
#[derive(Clone, Copy, Debug, PartialEq, Eq)]
pub struct ReadPlan {
    /// Read `order_static` and `order_value` under this key.
    pub order: Option<OrderKey>,
    /// Read `sell_lock` under this key.
    pub sell_lock: Option<LockKey>,
    /// Read `buy_lock` under this key.
    pub buy_lock: Option<LockKey>,
}

/// What the store held under the keys of a `ReadPlan`; `None` where a key
/// was not asked for or holds nothing.
#[derive(Clone, Copy, Debug, PartialEq, Eq)]
pub struct Snapshot {
    pub order_static: Option<OrderStatic>,
    pub order_value: Option<u128>,
    pub sell_lock: Option<SellLock>,
    pub buy_lock: Option<BuyLock>,
}

/// What an accepted event asks of the caller.
#[derive(Clone, Debug, PartialEq, Eq)]
pub struct Outcome {
    /// The writes, to be performed in this order.
    pub ops: Vec<IndexOp>,
    /// The notices to publish once the writes are done.
    pub notices: Vec<Notice>,
}

/// An `Outcome` as two sequences.
pub struct OutcomeView {
    pub ops: Seq<IndexOp>,
    pub notices: Seq<Notice>,
}

impl View for Outcome {
    type V = OutcomeView;

    open spec fn view(&self) -> OutcomeView {
        OutcomeView { ops: self.ops@, notices: self.notices@ }
    }
}

/// The tables of the index, as maps.
#[verifier::ext_equal]
pub struct IndexState {
    pub order_static: Map<OrderKey, OrderStatic>,
    pub order_value: Map<OrderKey, u128>,
    pub order_list: Map<OrderListKey, [u8; 16]>,
    pub order_lock_list: Map<OrderLockListKey, [u8; 32]>,
    pub buy_lock: Map<LockKey, BuyLock>,
    pub sell_lock: Map<LockKey, SellLock>,
}

/// What a map holds under a key, if anything.
pub open spec fn lookup<K, V>(map: Map<K, V>, key: K) -> Option<V> {
    if map.dom().contains(key) {
        Some(map[key])
    } else {
        None
    }
}

impl IndexState {
    /// The index before any event.
    pub open spec fn empty() -> IndexState {
        IndexState {
            order_static: Map::empty(),
            order_value: Map::empty(),
            order_list: Map::empty(),
            order_lock_list: Map::empty(),
            buy_lock: Map::empty(),
            sell_lock: Map::empty(),
        }
    }

    /// The index after one write.
    pub open spec fn apply_op(self, op: IndexOp) -> IndexState {
        match op {
            IndexOp::PutOrderStatic { key, order } => IndexState {
                order_static: self.order_static.insert(key, order),
                ..self
            },
            IndexOp::PutOrderValue { key, value } => IndexState {
                order_value: self.order_value.insert(key, value),
                ..self
            },
            IndexOp::DeleteOrderValue { key } => IndexState {
                order_value: self.order_value.remove(key),
                ..self
            },
            IndexOp::PutOrderList { entry } => IndexState {
                order_list: self.order_list.insert(entry, entry.order_id),
                ..self
            },
            IndexOp::DeleteOrderList { entry } => IndexState {
                order_list: self.order_list.remove(entry),
                ..self
            },
            IndexOp::PutOrderLockList { filed } => IndexState {
                order_lock_list: self.order_lock_list.insert(filed, filed.hashed_secret),
                ..self
            },
            IndexOp::PutBuyLock { lock_key, buy_lock } => IndexState {
                buy_lock: self.buy_lock.insert(lock_key, buy_lock),
                ..self
            },
            IndexOp::PutSellLock { lock_key, sell_lock } => IndexState {
                sell_lock: self.sell_lock.insert(lock_key, sell_lock),
                ..self
            },
        }
    }

    /// The index after a list of writes, performed in order.
    pub open spec fn apply(self, ops: Seq<IndexOp>) -> IndexState
        decreases ops.len(),
    {
        if ops.len() == 0 {
            self
        } else {
            self.apply_op(ops[0]).apply(ops.drop_first())
        }
    }

    /// What a caller that follows `plan` reads from the index.
    pub open spec fn snapshot(self, plan: ReadPlan) -> Snapshot {
        Snapshot {
            order_static: if plan.order is Some {
                lookup(self.order_static, plan.order.unwrap())
            } else {
                None
            },
            order_value: if plan.order is Some {
                lookup(self.order_value, plan.order.unwrap())
            } else {
                None
            },
            sell_lock: if plan.sell_lock is Some {
                lookup(self.sell_lock, plan.sell_lock.unwrap())
            } else {
                None
            },
            buy_lock: if plan.buy_lock is Some {
                lookup(self.buy_lock, plan.buy_lock.unwrap())
            } else {
                None
            },
        }
    }

    /// Every entry of an order book belongs to an order that holds a value,
    /// and stands at that value.
    pub open spec fn listed_orders_hold_value(self) -> bool {
        forall|entry: OrderListKey| #[trigger]
            self.order_list.dom().contains(entry) ==> {
                &&& self.order_value.dom().contains(entry.order_key())
                &&& self.order_value[entry.order_key()] == entry.value
                &&& self.order_list[entry] == entry.order_id
            }
    }

    /// No order has two entries.
    pub open spec fn orders_listed_once(self) -> bool {
        forall|a: OrderListKey, b: OrderListKey|
            #[trigger] self.order_list.dom().contains(a) && #[trigger] self.order_list.dom().contains(
                b,
            ) && a.order_key() == b.order_key() ==> a == b
    }

    /// Every order that holds a value has its static record and an entry in
    /// an order book.
    pub open spec fn valued_orders_listed(self) -> bool {
        forall|order: OrderKey| #[trigger]
            self.order_value.dom().contains(order) ==> {
                &&& self.order_static.dom().contains(order)
                &&& exists|entry: OrderListKey| #[trigger]
                    self.order_list.dom().contains(entry) && entry.order_key() == order
            }
    }

    /// Every lock filed under an order has its record.
    pub open spec fn listed_locks_on_record(self) -> bool {
        forall|entry: OrderLockListKey| #[trigger]
            self.order_lock_list.dom().contains(entry) ==> {
                &&& self.buy_lock.dom().contains(entry.lock_key())
                &&& self.order_lock_list[entry] == entry.hashed_secret
            }
    }

    /// The tables agree with each other: the order books list exactly the
    /// orders that hold a value, each once and at its value, and the lock
    /// lists name locks that are on record.
    pub open spec fn consistent(self) -> bool {
        &&& self.listed_orders_hold_value()
        &&& self.orders_listed_once()
        &&& self.valued_orders_listed()
        &&& self.listed_locks_on_record()
    }

    /// The index knows the order of `terms`, if at all, by these terms: its
    /// static record states them, and its entry stands in their order book.
    pub open spec fn knows_as(self, terms: OrderTerms) -> bool {
        &&& self.order_static.dom().contains(terms.spec_order_key())
            ==> self.order_static[terms.spec_order_key()] == terms.order
        &&& forall|entry: OrderListKey| #[trigger]
            self.order_list.dom().contains(entry) && entry.order_key() == terms.spec_order_key()
                ==> entry == terms.spec_list_key(entry.value)
    }

    /// The index after an event: the caller reads what the event needs,
    /// the engine decides, the caller performs the writes. A refused event
    /// leaves the index as it was.
    pub open spec fn step(self, event: SwapEvent) -> IndexState {
        match spec_process_event(event, self.snapshot(event.spec_reads())) {
            Ok(outcome) => self.apply(outcome.ops),
            Err(_) => self,
        }
    }
}

/// What an order holds after an event, given what it held before; `None`
/// when it is withdrawn.
pub open spec fn value_after(event: SwapEvent, stored: Option<u128>) -> Result<
    Option<u128>,
    ConsistencyError,
> {
    match event {
        SwapEvent::OrderAdded { value, .. } => {
            let held = if stored is Some {
                stored.unwrap()
            } else {
                0
            };
            if held + value > u128::MAX {
                Err(ConsistencyError::ValueOverflow)
            } else {
                Ok(Some((held + value) as u128))
            }
        },
        SwapEvent::OrderRemoved { value, .. } => {
            if stored is None {
                Err(ConsistencyError::UnknownOrder)
            } else if value > stored.unwrap() {
                Err(ConsistencyError::ValueUnderflow)
            } else {
                Ok(Some((stored.unwrap() - value) as u128))
            }
        },
        SwapEvent::OrderRefreshed { found, .. } => Ok(found),
        _ => Ok(stored),
    }
}

/// The writes that take an order from `stored_value` to `new_value`: the
/// static record if the order is new, then the entry of the order book at
/// the old value out, the entry at the new value in, and the value itself.
pub open spec fn order_ops(
    terms: OrderTerms,
    recorded: bool,
    stored_value: Option<u128>,
    new_value: Option<u128>,
) -> Seq<IndexOp> {
    let key = terms.spec_order_key();
    let record = if recorded {
        Seq::<IndexOp>::empty()
    } else {
        seq![IndexOp::PutOrderStatic { key, order: terms.order }]
    };
    let retract = if stored_value is Some {
        seq![IndexOp::DeleteOrderList { entry: terms.spec_list_key(stored_value.unwrap()) }]
    } else {
        Seq::<IndexOp>::empty()
    };
    let list = if new_value is Some {
        seq![
            IndexOp::PutOrderList { entry: terms.spec_list_key(new_value.unwrap()) },
            IndexOp::PutOrderValue { key, value: new_value.unwrap() },
        ]
    } else if stored_value is Some {
        seq![IndexOp::DeleteOrderValue { key }]
    } else {
        Seq::<IndexOp>::empty()
    };
    record + retract + list
}

/// Whom to tell of a change to an order; nobody where nothing was written.
pub open spec fn order_notices(terms: OrderTerms, ops: Seq<IndexOp>) -> Seq<Notice> {
    if ops.len() == 0 {
        Seq::<Notice>::empty()
    } else {
        seq![
            Notice::OrderBook { market: terms.spec_market() },
            Notice::Order { key: terms.spec_order_key() },
        ]
    }
}

/// What an order event asks for.
pub open spec fn spec_process_order(event: SwapEvent, terms: OrderTerms, snapshot: Snapshot) -> Result<
    OutcomeView,
    ConsistencyError,
> {
    if snapshot.order_static is Some && snapshot.order_static.unwrap() != terms.order {
        Err(ConsistencyError::StaticMismatch)
    } else if event is OrderRemoved && snapshot.order_static is None {
        Err(ConsistencyError::UnknownOrder)
    } else {
        match value_after(event, snapshot.order_value) {
            Err(e) => Err(e),
            Ok(new_value) => {
                let ops = order_ops(
                    terms,
                    snapshot.order_static is Some,
                    snapshot.order_value,
                    new_value,
                );
                Ok(OutcomeView { ops, notices: order_notices(terms, ops) })
            },
        }
    }
}

/// The key of the order that a lock was placed against: it is sold where
/// the lock is filed.
pub open spec fn locked_order(lock: LockKey, order_id: [u8; 16]) -> OrderKey {
    OrderKey { chain_id: lock.chain_id, adapter_id: lock.adapter_id, order_id }
}

/// The entry that files a buy lock under its order.
pub open spec fn lock_list_key(lock: LockKey, order_id: [u8; 16], value: u128) -> OrderLockListKey {
    OrderLockListKey {
        chain_id: lock.chain_id,
        adapter_id: lock.adapter_id,
        order_id,
        value,
        hashed_secret: lock.hashed_secret,
    }
}

/// What a change to a sell lock asks for: the record written, the order
/// told of; nothing where the record stays as it is.
pub open spec fn sell_lock_outcome(lock: LockKey, order_id: [u8; 16], next: Option<SellLock>) -> OutcomeView {
    if next is Some {
        OutcomeView {
            ops: seq![IndexOp::PutSellLock { lock_key: lock, sell_lock: next.unwrap() }],
            notices: seq![Notice::Order { key: locked_order(lock, order_id) }],
        }
    } else {
        OutcomeView { ops: Seq::empty(), notices: Seq::empty() }
    }
}

/// What the end of a buy lock asks for.
pub open spec fn buy_lock_outcome(lock: LockKey, next: Option<BuyLock>) -> OutcomeView {
    if next is Some {
        OutcomeView {
            ops: seq![IndexOp::PutBuyLock { lock_key: lock, buy_lock: next.unwrap() }],
            notices: seq![Notice::Order { key: locked_order(lock, next.unwrap().order_id) }],
        }
    } else {
        OutcomeView { ops: Seq::empty(), notices: Seq::empty() }
    }
}

/// What an event asks for, given the records it needed to see.
pub open spec fn spec_process_event(event: SwapEvent, snapshot: Snapshot) -> Result<
    OutcomeView,
    ConsistencyError,
> {
    match event {
        SwapEvent::OrderAdded { terms, .. } => spec_process_order(event, terms, snapshot),
        SwapEvent::OrderRemoved { terms, .. } => spec_process_order(event, terms, snapshot),
        SwapEvent::OrderRefreshed { terms, .. } => spec_process_order(event, terms, snapshot),
        SwapEvent::SellLocked { lock, order_id, timeout, .. } => Ok(
            sell_lock_outcome(lock, order_id, SellLock::spec_on_locked(snapshot.sell_lock, timeout)),
        ),
        SwapEvent::SellUnlocked { lock, order_id, secret } => Ok(
            sell_lock_outcome(lock, order_id, SellLock::spec_on_unlocked(snapshot.sell_lock, secret)),
        ),
        SwapEvent::SellTimedOut { lock, order_id } => Ok(
            sell_lock_outcome(lock, order_id, SellLock::spec_on_timed_out(snapshot.sell_lock)),
        ),
        SwapEvent::BuyLocked { lock, market, order_id, value, timeout, buyer, foreign_address } => {
            let placed = BuyLock {
                order_id,
                value,
                timeout,
                buyer,
                foreign_address,
                state: LockState::Locked,
            };
            let next = BuyLock::spec_on_locked(snapshot.buy_lock, placed);
            if next is Some {
                Ok(
                    OutcomeView {
                        ops: seq![
                            IndexOp::PutOrderLockList { filed: lock_list_key(lock, order_id, value) },
                            IndexOp::PutBuyLock { lock_key: lock, buy_lock: next.unwrap() },
                        ],
                        notices: seq![
                            Notice::OrderBook { market },
                            Notice::Order { key: locked_order(lock, order_id) },
                        ],
                    },
                )
            } else {
                Ok(OutcomeView { ops: Seq::empty(), notices: Seq::empty() })
            }
        },
        SwapEvent::BuyUnlocked { lock, .. } => match BuyLock::spec_on_ended(
            snapshot.buy_lock,
            LockState::Unlocked,
        ) {
            Ok(next) => Ok(buy_lock_outcome(lock, next)),
            Err(e) => Err(e),
        },
        SwapEvent::BuyTimedOut { lock, .. } => match BuyLock::spec_on_ended(
            snapshot.buy_lock,
            LockState::TimedOut,
        ) {
            Ok(next) => Ok(buy_lock_outcome(lock, next)),
            Err(e) => Err(e),
        },
    }
}

/// Whether `result` is what `expected` says, writes and notices in order.
pub open spec fn outcome_is(
    result: Result<Outcome, ConsistencyError>,
    expected: Result<OutcomeView, ConsistencyError>,
) -> bool {
    match result {
        Ok(outcome) => expected == Ok::<OutcomeView, ConsistencyError>(outcome@),
        Err(e) => expected == Err::<OutcomeView, ConsistencyError>(e),
    }
}

impl SwapEvent {
    /// The records that must be read before the event can be applied: the
    /// two records of the order for an order event, the lock record of its
    /// side for a lock event.
    pub open spec fn spec_reads(&self) -> ReadPlan {
        match *self {
            SwapEvent::OrderAdded { terms, .. } => ReadPlan {
                order: Some(terms.spec_order_key()),
                sell_lock: None,
                buy_lock: None,
            },
            SwapEvent::OrderRemoved { terms, .. } => ReadPlan {
                order: Some(terms.spec_order_key()),
                sell_lock: None,
                buy_lock: None,
            },
            SwapEvent::OrderRefreshed { terms, .. } => ReadPlan {
                order: Some(terms.spec_order_key()),
                sell_lock: None,
                buy_lock: None,
            },
            SwapEvent::SellLocked { lock, .. } => ReadPlan {
                order: None,
                sell_lock: Some(lock),
                buy_lock: None,
            },
            SwapEvent::SellUnlocked { lock, .. } => ReadPlan {
                order: None,
                sell_lock: Some(lock),
                buy_lock: None,
            },
            SwapEvent::SellTimedOut { lock, .. } => ReadPlan {
                order: None,
                sell_lock: Some(lock),
                buy_lock: None,
            },
            SwapEvent::BuyLocked { lock, .. } => ReadPlan {
                order: None,
                sell_lock: None,
                buy_lock: Some(lock),
            },
            SwapEvent::BuyUnlocked { lock, .. } => ReadPlan {
                order: None,
                sell_lock: None,
                buy_lock: Some(lock),
            },
            SwapEvent::BuyTimedOut { lock, .. } => ReadPlan {
                order: None,
                sell_lock: None,
                buy_lock: Some(lock),
            },
        }
    }

    /// Names the records that must be read before the event can be applied.
    #[verifier::when_used_as_spec(spec_reads)]
    pub fn reads(&self) -> (plan: ReadPlan)
        ensures
            plan == self.spec_reads(),
    {
        match self {
            SwapEvent::OrderAdded { terms, .. } => ReadPlan {
                order: Some(terms.order_key()),
                sell_lock: None,
                buy_lock: None,
            },
            SwapEvent::OrderRemoved { terms, .. } => ReadPlan {
                order: Some(terms.order_key()),
                sell_lock: None,
                buy_lock: None,
            },
            SwapEvent::OrderRefreshed { terms, .. } => ReadPlan {
                order: Some(terms.order_key()),
                sell_lock: None,
                buy_lock: None,
            },
            SwapEvent::SellLocked { lock, .. } => ReadPlan {
                order: None,
                sell_lock: Some(*lock),
                buy_lock: None,
            },
            SwapEvent::SellUnlocked { lock, .. } => ReadPlan {
                order: None,
                sell_lock: Some(*lock),
                buy_lock: None,
            },
            SwapEvent::SellTimedOut { lock, .. } => ReadPlan {
                order: None,
                sell_lock: Some(*lock),
                buy_lock: None,
            },
            SwapEvent::BuyLocked { lock, .. } => ReadPlan {
                order: None,
                sell_lock: None,
                buy_lock: Some(*lock),
            },
            SwapEvent::BuyUnlocked { lock, .. } => ReadPlan {
                order: None,
                sell_lock: None,
                buy_lock: Some(*lock),
            },
            SwapEvent::BuyTimedOut { lock, .. } => ReadPlan {
                order: None,
                sell_lock: None,
                buy_lock: Some(*lock),
            },
        }
    }
}

/// Works out the writes that take an order to its new value.
///
/// `recorded` says whether the static record of the order is on file,
/// `stored_value` is what `order_value` holds for it, `new_value` what it
/// shall hold; `None` means that no value is there. The entry of the order
/// book at the old value goes before the entry at the new value comes, so
/// that the order is never listed twice.
pub fn update_order(
    terms: &OrderTerms,
    recorded: bool,
    stored_value: Option<u128>,
    new_value: Option<u128>,
) -> (ops: Vec<IndexOp>)
    ensures
        ops@ == order_ops(*terms, recorded, stored_value, new_value),
{
    let key = terms.order_key();
    let mut ops: Vec<IndexOp> = Vec::new();
    if !recorded {
        ops.push(IndexOp::PutOrderStatic { key, order: terms.order });
    }
    match stored_value {
        Some(value) => {
            ops.push(IndexOp::DeleteOrderList { entry: terms.list_key(value) });
        },
        None => {},
    }
    match new_value {
        Some(value) => {
            ops.push(IndexOp::PutOrderList { entry: terms.list_key(value) });
            ops.push(IndexOp::PutOrderValue { key, value });
        },
        None => {
            if stored_value.is_some() {
                ops.push(IndexOp::DeleteOrderValue { key });
            }
        },
    }
    assert(ops@ =~= order_ops(*terms, recorded, stored_value, new_value));
    ops
}

fn no_change() -> (outcome: Outcome)
    ensures
        outcome@.ops == Seq::<IndexOp>::empty(),
        outcome@.notices == Seq::<Notice>::empty(),
{
    Outcome { ops: Vec::new(), notices: Vec::new() }
}

fn process_order(event: &SwapEvent, terms: &OrderTerms, snapshot: &Snapshot) -> (result: Result<
    Outcome,
    ConsistencyError,
>)
    requires
        event is OrderAdded || event is OrderRemoved || event is OrderRefreshed,
    ensures
        outcome_is(result, spec_process_order(*event, *terms, *snapshot)),
{
    let recorded = match &snapshot.order_static {
        Some(stored) => {
            if !stored.same_terms(&terms.order) {
                return Err(ConsistencyError::StaticMismatch);
            }
            true
        },
        None => false,
    };
    let new_value = match event {
        SwapEvent::OrderAdded { value, .. } => {
            let held = match snapshot.order_value {
                Some(held) => held,
                None => 0,
            };
            match held.checked_add(*value) {
                Some(sum) => Some(sum),
                None => {
                    return Err(ConsistencyError::ValueOverflow);
                },
            }
        },
        SwapEvent::OrderRemoved { value, .. } => {
            if !recorded {
                return Err(ConsistencyError::UnknownOrder);
            }
            match snapshot.order_value {
                None => {
                    return Err(ConsistencyError::UnknownOrder);
                },
                Some(held) => {
                    if *value > held {
                        return Err(ConsistencyError::ValueUnderflow);
                    }
                    Some(held - *value)
                },
            }
        },
        SwapEvent::OrderRefreshed { found, .. } => *found,
        _ => snapshot.order_value,
    };
    let ops = update_order(terms, recorded, snapshot.order_value, new_value);
    let mut notices: Vec<Notice> = Vec::new();
    if ops.len() > 0 {
        notices.push(Notice::OrderBook { market: terms.market() });
        notices.push(Notice::Order { key: terms.order_key() });
    }
    let outcome = Outcome { ops, notices };
    assert(outcome@.notices =~= order_notices(*terms, outcome@.ops));
    Ok(outcome)
}

fn sell_lock_change(lock: &LockKey, order_id: &[u8; 16], next: Option<SellLock>) -> (outcome: Outcome)
    ensures
        outcome@ == sell_lock_outcome(*lock, *order_id, next),
{
    match next {
        Some(record) => {
            let mut ops: Vec<IndexOp> = Vec::new();
            ops.push(IndexOp::PutSellLock { lock_key: *lock, sell_lock: record });
            let mut notices: Vec<Notice> = Vec::new();
            notices.push(
                Notice::Order {
                    key: OrderKey {
                        chain_id: lock.chain_id,
                        adapter_id: lock.adapter_id,
                        order_id: *order_id,
                    },
                },
            );
            let outcome = Outcome { ops, notices };
            assert(outcome@.ops =~= sell_lock_outcome(*lock, *order_id, next).ops);
            assert(outcome@.notices =~= sell_lock_outcome(*lock, *order_id, next).notices);
            outcome
        },
        None => no_change(),
    }
}

fn buy_lock_change(lock: &LockKey, next: Option<BuyLock>) -> (outcome: Outcome)
    ensures
        outcome@ == buy_lock_outcome(*lock, next),
{
    match next {
        Some(record) => {
            let mut ops: Vec<IndexOp> = Vec::new();
            ops.push(IndexOp::PutBuyLock { lock_key: *lock, buy_lock: record });
            let mut notices: Vec<Notice> = Vec::new();
            notices.push(
                Notice::Order {
                    key: OrderKey {
                        chain_id: lock.chain_id,
                        adapter_id: lock.adapter_id,
                        order_id: record.order_id,
                    },
                },
            );
            let outcome = Outcome { ops, notices };
            assert(outcome@.ops =~= buy_lock_outcome(*lock, next).ops);
            assert(outcome@.notices =~= buy_lock_outcome(*lock, next).notices);
            outcome
        },
        None => no_change(),
    }
}

/// Decides what an event does to the index.
///
/// `snapshot` holds what the store had under the keys of `event.reads()`.
/// The answer is the list of writes and notices, or the reason why the event
/// is refused; a refused event asks for no write.
pub fn process_event(event: &SwapEvent, snapshot: &Snapshot) -> (result: Result<
    Outcome,
    ConsistencyError,
>)
    ensures
        outcome_is(result, spec_process_event(*event, *snapshot)),
{
    match event {
        SwapEvent::OrderAdded { terms, .. } => process_order(event, terms, snapshot),
        SwapEvent::OrderRemoved { terms, .. } => process_order(event, terms, snapshot),
        SwapEvent::OrderRefreshed { terms, .. } => process_order(event, terms, snapshot),
        SwapEvent::SellLocked { lock, order_id, timeout, .. } => Ok(
            sell_lock_change(lock, order_id, SellLock::on_locked(snapshot.sell_lock, *timeout)),
        ),
        SwapEvent::SellUnlocked { lock, order_id, secret } => Ok(
            sell_lock_change(lock, order_id, SellLock::on_unlocked(snapshot.sell_lock, *secret)),
        ),
        SwapEvent::SellTimedOut { lock, order_id } => Ok(
            sell_lock_change(lock, order_id, SellLock::on_timed_out(snapshot.sell_lock)),
        ),
        SwapEvent::BuyLocked { lock, market, order_id, value, timeout, buyer, foreign_address } => {
            let placed = BuyLock {
                order_id: *order_id,
                value: *value,
                timeout: *timeout,
                buyer: *buyer,
                foreign_address: *foreign_address,
                state: LockState::Locked,
            };
            match BuyLock::on_locked(snapshot.buy_lock, placed) {
                Some(record) => {
                    let mut ops: Vec<IndexOp> = Vec::new();
                    ops.push(
                        IndexOp::PutOrderLockList {
                            filed: OrderLockListKey {
                                chain_id: lock.chain_id,
                                adapter_id: lock.adapter_id,
                                order_id: *order_id,
                                value: *value,
                                hashed_secret: lock.hashed_secret,
                            },
                        },
                    );
                    ops.push(IndexOp::PutBuyLock { lock_key: *lock, buy_lock: record });
                    let mut notices: Vec<Notice> = Vec::new();
                    notices.push(Notice::OrderBook { market: *market });
                    notices.push(
                        Notice::Order {
                            key: OrderKey {
                                chain_id: lock.chain_id,
                                adapter_id: lock.adapter_id,
                                order_id: *order_id,
                            },
                        },
                    );
                    let outcome = Outcome { ops, notices };
                    proof {
                        let expected = spec_process_event(*event, *snapshot).unwrap();
                        assert(outcome@.ops =~= expected.ops);
                        assert(outcome@.notices =~= expected.notices);
                    }
                    Ok(outcome)
                },
                None => Ok(no_change()),
            }
        },
        SwapEvent::BuyUnlocked { lock, .. } => {
            match BuyLock::on_ended(snapshot.buy_lock, LockState::Unlocked) {
                Ok(next) => Ok(buy_lock_change(lock, next)),
                Err(e) => Err(e),
            }
        },
        SwapEvent::BuyTimedOut { lock, .. } => {
            match BuyLock::on_ended(snapshot.buy_lock, LockState::TimedOut) {
                Ok(next) => Ok(buy_lock_change(lock, next)),
                Err(e) => Err(e),
            }
        },
    }
}

impl SwapEvent {
    /// The order that the event is about, for the events that change one.
    pub open spec fn order_terms(self) -> Option<OrderTerms> {
        match self {
            SwapEvent::OrderAdded { terms, .. } => Some(terms),
            SwapEvent::OrderRemoved { terms, .. } => Some(terms),
            SwapEvent::OrderRefreshed { terms, .. } => Some(terms),
            _ => None,
        }
    }

    /// Whether the event reports a change to a lock.
    pub open spec fn is_lock_event(self) -> bool {
        self.order_terms() is None
    }
}

/// The bytes that `order_value` holds for `value`.
pub open spec fn order_value_bytes(value: u128) -> Seq<u8> {
    be_bytes(value as nat, 16)
}

/// Writes a value as `order_value` stores it: 16 bytes, big-endian.
pub fn order_value_to_bytes(value: u128) -> (out: Vec<u8>)
    ensures
        out@ == order_value_bytes(value),
{
    let mut out: Vec<u8> = Vec::new();
    push_be(&mut out, value, 16);
    out
}

/// Reads a value as `order_value` stores it; `None` where `stored` is not
/// 16 bytes long.
pub fn order_value_from_bytes(stored: &Vec<u8>) -> (value: Option<u128>)
    ensures
        value is Some <==> stored@.len() == 16,
        value matches Some(v) ==> v == be_value(stored@) && order_value_bytes(v) == stored@,
{
    if stored.len() == 16 {
        let v = read_be(stored.as_slice(), 0, 16);
        proof {
            assert(stored@.subrange(0, 16) =~= stored@);
            crate::bytes::lemma_be_bytes_of_value(stored@);
        }
        Some(v)
    } else {
        None
    }
}

impl IndexOp {
    /// The table that the write goes to.
    pub open spec fn spec_table(&self) -> Table {
        match *self {
            IndexOp::PutOrderStatic { .. } => Table::OrderStatic,
            IndexOp::PutOrderValue { .. } => Table::OrderValue,
            IndexOp::DeleteOrderValue { .. } => Table::OrderValue,
            IndexOp::PutOrderList { .. } => Table::OrderList,
            IndexOp::DeleteOrderList { .. } => Table::OrderList,
            IndexOp::PutOrderLockList { .. } => Table::OrderLockList,
            IndexOp::PutBuyLock { .. } => Table::BuyLock,
            IndexOp::PutSellLock { .. } => Table::SellLock,
        }
    }

    /// The table that the write goes to.
    #[verifier::when_used_as_spec(spec_table)]
    pub fn table(&self) -> (table: Table)
        ensures
            table == self.spec_table(),
    {
        match self {
            IndexOp::PutOrderStatic { .. } => Table::OrderStatic,
            IndexOp::PutOrderValue { .. } => Table::OrderValue,
            IndexOp::DeleteOrderValue { .. } => Table::OrderValue,
            IndexOp::PutOrderList { .. } => Table::OrderList,
            IndexOp::DeleteOrderList { .. } => Table::OrderList,
            IndexOp::PutOrderLockList { .. } => Table::OrderLockList,
            IndexOp::PutBuyLock { .. } => Table::BuyLock,
            IndexOp::PutSellLock { .. } => Table::SellLock,
        }
    }

    /// The bytes of the key that the write goes to.
    pub open spec fn key_bytes(&self) -> Seq<u8> {
        match *self {
            IndexOp::PutOrderStatic { key, .. } => key.bytes(),
            IndexOp::PutOrderValue { key, .. } => key.bytes(),
            IndexOp::DeleteOrderValue { key } => key.bytes(),
            IndexOp::PutOrderList { entry } => entry.bytes(),
            IndexOp::DeleteOrderList { entry } => entry.bytes(),
            IndexOp::PutOrderLockList { filed } => filed.bytes(),
            IndexOp::PutBuyLock { lock_key, .. } => lock_key.bytes(),
            IndexOp::PutSellLock { lock_key, .. } => lock_key.bytes(),
        }
    }

    /// Serialises the key that the write goes to.
    pub fn key(&self) -> (out: Vec<u8>)
        ensures
            out@ == self.key_bytes(),
    {
        match self {
            IndexOp::PutOrderStatic { key, .. } => key.serialize(),
            IndexOp::PutOrderValue { key, .. } => key.serialize(),
            IndexOp::DeleteOrderValue { key } => key.serialize(),
            IndexOp::PutOrderList { entry } => entry.serialize(),
            IndexOp::DeleteOrderList { entry } => entry.serialize(),
            IndexOp::PutOrderLockList { filed } => filed.serialize(),
            IndexOp::PutBuyLock { lock_key, .. } => lock_key.serialize(),
            IndexOp::PutSellLock { lock_key, .. } => lock_key.serialize(),
        }
    }
}

impl Table {
    /// The name of the table in the store.
    pub open spec fn name(self) -> Seq<char> {
        match self {
            Table::OrderStatic => "order_static"@,
            Table::OrderValue => "order_value"@,
            Table::OrderList => "order_list"@,
            Table::OrderLockList => "order_lock_list"@,
            Table::BuyLock => "buy_lock"@,
            Table::SellLock => "sell_lock"@,
        }
    }

    /// The name of the table in the store.
    pub fn as_str(&self) -> (name: &'static str)
        ensures
            name@ == self.name(),
    {
        match self {
            Table::OrderStatic => "order_static",
            Table::OrderValue => "order_value",
            Table::OrderList => "order_list",
            Table::OrderLockList => "order_lock_list",
            Table::BuyLock => "buy_lock",
            Table::SellLock => "sell_lock",
        }
    }
}

} // verus!
