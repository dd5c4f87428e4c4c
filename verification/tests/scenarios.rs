use std::collections::BTreeMap;

use acuity_index::events::{hash_secret, Market, OrderTerms, SwapEvent};
use acuity_index::evm::{EventTopics, EvmAdapter};
use acuity_index::index::{
    order_value_from_bytes, order_value_to_bytes, process_event, update_order, IndexOp, Notice,
    Outcome, ReadPlan, Snapshot, Table,
};
use acuity_index::query::{order_book_entries, order_lock_entries};
use acuity_index::shared::{
    BuyLock, LockKey, LockState, OrderKey, OrderListKey, OrderLockListKey, OrderStatic, SellLock,
};
use acuity_index::tracker::ConsistencyError;

/// An ordered key-value store in memory, one map for each table.
struct Store {
    order_static: BTreeMap<Vec<u8>, OrderStatic>,
    order_value: BTreeMap<Vec<u8>, Vec<u8>>,
    order_list: BTreeMap<Vec<u8>, [u8; 16]>,
    order_lock_list: BTreeMap<Vec<u8>, [u8; 32]>,
    buy_lock: BTreeMap<Vec<u8>, BuyLock>,
    sell_lock: BTreeMap<Vec<u8>, SellLock>,
}

fn new_store() -> Store {
    Store {
        order_static: BTreeMap::new(),
        order_value: BTreeMap::new(),
        order_list: BTreeMap::new(),
        order_lock_list: BTreeMap::new(),
        buy_lock: BTreeMap::new(),
        sell_lock: BTreeMap::new(),
    }
}

fn read(store: &Store, plan: &ReadPlan) -> Snapshot {
    Snapshot {
        order_static: plan.order.and_then(|key| store.order_static.get(&key.serialize()).copied()),
        order_value: plan.order.and_then(|key| {
            store.order_value.get(&key.serialize()).map(|bytes| order_value_from_bytes(bytes).unwrap())
        }),
        sell_lock: plan.sell_lock.and_then(|key| store.sell_lock.get(&key.serialize()).copied()),
        buy_lock: plan.buy_lock.and_then(|key| store.buy_lock.get(&key.serialize()).copied()),
    }
}

fn write(store: &mut Store, op: &IndexOp) {
    let key = op.key();
    match op {
        IndexOp::PutOrderStatic { order, .. } => {
            store.order_static.insert(key, *order);
        },
        IndexOp::PutOrderValue { value, .. } => {
            store.order_value.insert(key, order_value_to_bytes(*value));
        },
        IndexOp::DeleteOrderValue { .. } => {
            store.order_value.remove(&key);
        },
        IndexOp::PutOrderList { entry } => {
            store.order_list.insert(key, entry.order_id);
        },
        IndexOp::DeleteOrderList { .. } => {
            store.order_list.remove(&key);
        },
        IndexOp::PutOrderLockList { filed } => {
            store.order_lock_list.insert(key, filed.hashed_secret);
        },
        IndexOp::PutBuyLock { buy_lock, .. } => {
            store.buy_lock.insert(key, *buy_lock);
        },
        IndexOp::PutSellLock { sell_lock, .. } => {
            store.sell_lock.insert(key, *sell_lock);
        },
    }
}

fn deliver(store: &mut Store, event: &SwapEvent) -> Result<Outcome, ConsistencyError> {
    let snapshot = read(store, &event.reads());
    let outcome = process_event(event, &snapshot)?;
    for op in outcome.ops.iter() {
        write(store, op);
    }
    Ok(outcome)
}

fn walk_order_book(store: &Store, market: &Market) -> Vec<OrderListKey> {
    let keys: Vec<Vec<u8>> = store.order_list.range(market.scan_start()..).map(|(k, _)| k.clone()).collect();
    order_book_entries(market, &keys)
}

fn walk_locks(store: &Store, order: &OrderKey) -> Vec<OrderLockListKey> {
    let keys: Vec<Vec<u8>> =
        store.order_lock_list.range(order.lock_scan_start()..).map(|(k, _)| k.clone()).collect();
    order_lock_entries(order, &keys)
}

fn held(store: &Store, terms: &OrderTerms) -> Option<u128> {
    store.order_value.get(&terms.order_key().serialize()).map(|b| order_value_from_bytes(b).unwrap())
}

fn order() -> OrderStatic {
    OrderStatic {
        seller: [0x01; 32],
        chain_id: 76,
        adapter_id: 0,
        asset_id: [0; 8],
        price: 100,
        foreign_address: [0xaa; 32],
    }
}

fn terms_of(order_id: [u8; 16]) -> OrderTerms {
    OrderTerms {
        sell_chain_id: 9001,
        sell_adapter_id: 0,
        sell_asset_id: [0; 8],
        order_id,
        order: order(),
    }
}

fn terms() -> OrderTerms {
    terms_of(order().get_order_id())
}

fn market() -> Market {
    Market { sell_chain_id: 9001, sell_asset_id: [0; 8], buy_chain_id: 76, buy_asset_id: [0; 8] }
}

fn added(value: u128) -> SwapEvent {
    SwapEvent::OrderAdded { terms: terms(), value }
}

fn removed(value: u128) -> SwapEvent {
    SwapEvent::OrderRemoved { terms: terms(), value }
}

const SECRET: [u8; 32] = [0x5c; 32];

fn lock_key() -> LockKey {
    LockKey { chain_id: 76, adapter_id: 0, hashed_secret: hash_secret(&SECRET) }
}

fn buy_locked(order_id: [u8; 16], value: u128) -> SwapEvent {
    SwapEvent::BuyLocked {
        lock: lock_key(),
        market: Market { sell_chain_id: 76, sell_asset_id: [0; 8], buy_chain_id: 9001, buy_asset_id: [0; 8] },
        order_id,
        value,
        timeout: 1_700_000_000,
        buyer: [0xb1; 32],
        foreign_address: [0xfa; 32],
    }
}

fn sell_key() -> LockKey {
    LockKey { chain_id: 9001, adapter_id: 0, hashed_secret: hash_secret(&SECRET) }
}

fn sell_locked(timeout: u128) -> SwapEvent {
    SwapEvent::SellLocked { lock: sell_key(), order_id: [0x0d; 16], value: 250, timeout }
}

fn sell_unlocked() -> SwapEvent {
    SwapEvent::SellUnlocked { lock: sell_key(), order_id: [0x0d; 16], secret: SECRET }
}

fn sell_timed_out() -> SwapEvent {
    SwapEvent::SellTimedOut { lock: sell_key(), order_id: [0x0d; 16] }
}

#[test]
fn sell_order_accumulates_and_is_listed_once() {
    let mut store = new_store();
    deliver(&mut store, &added(500)).unwrap();
    assert_eq!(held(&store, &terms()), Some(500));
    deliver(&mut store, &added(300)).unwrap();
    let book = walk_order_book(&store, &market());
    assert_eq!(book, vec![terms().list_key(800)]);
    assert_eq!(store.order_list.len(), 1);
    assert_eq!(held(&store, &terms()), Some(800));
    deliver(&mut store, &removed(200)).unwrap();
    let book = walk_order_book(&store, &market());
    assert_eq!(book, vec![terms().list_key(600)]);
    assert_eq!(book[0].value, 600);
    assert_eq!(store.order_list.len(), 1);
    assert_eq!(held(&store, &terms()), Some(600));
    assert_eq!(store.order_static.get(&terms().order_key().serialize()), Some(&order()));
}

#[test]
fn sell_order_through_the_arbitrum_adapter() {
    let topics = EventTopics {
        add_to_order: [1; 32],
        remove_from_order: [2; 32],
        lock_sell: [3; 32],
        unlock_sell: [4; 32],
        timeout_sell: [5; 32],
        lock_buy: [6; 32],
        unlock_buy: [7; 32],
        timeout_buy: [8; 32],
    };
    let adapter = EvmAdapter::arbitrum(topics);
    let order_id = order().get_order_id();
    let add = |value: u128| {
        let mut data = vec![0u8; 160];
        data[0..16].copy_from_slice(&order_id);
        data[32..64].copy_from_slice(&[0x01; 32]);
        data[80..96].copy_from_slice(&100u128.to_be_bytes());
        data[96..128].copy_from_slice(&[0xaa; 32]);
        data[144..160].copy_from_slice(&value.to_be_bytes());
        data
    };
    let mut remove = vec![0u8; 128];
    remove[0..32].copy_from_slice(&[0x01; 32]);
    remove[48..64].copy_from_slice(&100u128.to_be_bytes());
    remove[64..96].copy_from_slice(&[0xaa; 32]);
    remove[112..128].copy_from_slice(&200u128.to_be_bytes());

    let mut store = new_store();
    let sell = adapter.sell_contract;
    let first = adapter.decode_log(&sell, &vec![[1; 32]], &add(500)).unwrap();
    deliver(&mut store, &first).unwrap();
    let second = adapter.decode_log(&sell, &vec![[1; 32]], &add(300)).unwrap();
    deliver(&mut store, &second).unwrap();
    assert_eq!(walk_order_book(&store, &market()), vec![terms().list_key(800)]);
    let third = adapter.decode_log(&sell, &vec![[2; 32]], &remove).unwrap();
    deliver(&mut store, &third).unwrap();
    assert_eq!(walk_order_book(&store, &market()), vec![terms().list_key(600)]);
    assert_eq!(held(&store, &terms()), Some(600));
}

#[test]
fn first_add_writes_the_record_then_the_entry_then_the_value() {
    let outcome = process_event(
        &added(500),
        &Snapshot { order_static: None, order_value: None, sell_lock: None, buy_lock: None },
    )
    .unwrap();
    assert_eq!(
        outcome.ops,
        vec![
            IndexOp::PutOrderStatic { key: terms().order_key(), order: order() },
            IndexOp::PutOrderList { entry: terms().list_key(500) },
            IndexOp::PutOrderValue { key: terms().order_key(), value: 500 },
        ]
    );
    assert_eq!(
        outcome.notices,
        vec![Notice::OrderBook { market: market() }, Notice::Order { key: terms().order_key() }]
    );
}

#[test]
fn an_update_retracts_the_old_entry_before_it_lists_the_new_one() {
    let outcome = process_event(
        &added(300),
        &Snapshot { order_static: Some(order()), order_value: Some(500), sell_lock: None, buy_lock: None },
    )
    .unwrap();
    assert_eq!(
        outcome.ops,
        vec![
            IndexOp::DeleteOrderList { entry: terms().list_key(500) },
            IndexOp::PutOrderList { entry: terms().list_key(800) },
            IndexOp::PutOrderValue { key: terms().order_key(), value: 800 },
        ]
    );
    assert_eq!(update_order(&terms(), true, Some(500), Some(800)), outcome.ops);
}

#[test]
fn update_order_covers_every_case() {
    let key = terms().order_key();
    assert_eq!(update_order(&terms(), true, None, None), Vec::new());
    assert_eq!(
        update_order(&terms(), false, None, None),
        vec![IndexOp::PutOrderStatic { key, order: order() }]
    );
    assert_eq!(
        update_order(&terms(), true, Some(7), None),
        vec![
            IndexOp::DeleteOrderList { entry: terms().list_key(7) },
            IndexOp::DeleteOrderValue { key },
        ]
    );
    assert_eq!(
        update_order(&terms(), true, None, Some(0)),
        vec![
            IndexOp::PutOrderList { entry: terms().list_key(0) },
            IndexOp::PutOrderValue { key, value: 0 },
        ]
    );
    assert_eq!(
        update_order(&terms(), false, Some(7), Some(7)),
        vec![
            IndexOp::PutOrderStatic { key, order: order() },
            IndexOp::DeleteOrderList { entry: terms().list_key(7) },
            IndexOp::PutOrderList { entry: terms().list_key(7) },
            IndexOp::PutOrderValue { key, value: 7 },
        ]
    );
}

#[test]
fn net_sum_of_many_changes() {
    let mut store = new_store();
    let changes: [(bool, u128); 8] =
        [(true, 10), (true, 5), (false, 3), (true, 1_000), (false, 12), (false, 1_000), (true, 0), (false, 0)];
    let mut expected: u128 = 0;
    for (add, value) in changes {
        if add {
            deliver(&mut store, &added(value)).unwrap();
            expected += value;
        } else {
            deliver(&mut store, &removed(value)).unwrap();
            expected -= value;
        }
        assert_eq!(held(&store, &terms()), Some(expected));
        assert_eq!(store.order_list.len(), 1);
        assert_eq!(walk_order_book(&store, &market()), vec![terms().list_key(expected)]);
    }
    assert_eq!(expected, 0);
    assert_eq!(held(&store, &terms()), Some(0));
    assert!(store.order_static.contains_key(&terms().order_key().serialize()));
}

#[test]
fn refused_changes_leave_the_sum_alone() {
    let mut store = new_store();
    assert_eq!(deliver(&mut store, &removed(1)).err(), Some(ConsistencyError::UnknownOrder));
    assert_eq!(held(&store, &terms()), None);
    assert!(store.order_list.is_empty());
    assert!(store.order_static.is_empty());
    deliver(&mut store, &added(50)).unwrap();
    assert_eq!(deliver(&mut store, &removed(51)).err(), Some(ConsistencyError::ValueUnderflow));
    assert_eq!(held(&store, &terms()), Some(50));
    assert_eq!(deliver(&mut store, &added(u128::MAX)).err(), Some(ConsistencyError::ValueOverflow));
    assert_eq!(held(&store, &terms()), Some(50));
    assert_eq!(walk_order_book(&store, &market()), vec![terms().list_key(50)]);
    deliver(&mut store, &added(u128::MAX - 50)).unwrap();
    assert_eq!(held(&store, &terms()), Some(u128::MAX));
    deliver(&mut store, &removed(u128::MAX)).unwrap();
    assert_eq!(held(&store, &terms()), Some(0));
}

#[test]
fn other_terms_under_the_same_key_are_refused() {
    let mut store = new_store();
    deliver(&mut store, &added(500)).unwrap();
    let mut other = terms();
    other.order.price = 101;
    let before_list = store.order_list.clone();
    let before_value = store.order_value.clone();
    assert_eq!(
        deliver(&mut store, &SwapEvent::OrderAdded { terms: other, value: 1 }).err(),
        Some(ConsistencyError::StaticMismatch)
    );
    assert_eq!(
        deliver(&mut store, &SwapEvent::OrderRemoved { terms: other, value: 1 }).err(),
        Some(ConsistencyError::StaticMismatch)
    );
    assert_eq!(
        deliver(&mut store, &SwapEvent::OrderRefreshed { terms: other, found: Some(1) }).err(),
        Some(ConsistencyError::StaticMismatch)
    );
    assert_eq!(store.order_list, before_list);
    assert_eq!(store.order_value, before_value);
    assert_eq!(store.order_static.get(&terms().order_key().serialize()), Some(&order()));
}

#[test]
fn order_book_is_walked_by_value_and_skips_withdrawn_orders() {
    let mut store = new_store();
    let values: [u128; 5] = [700, 5, 1 << 80, 256, 255];
    for (i, value) in values.iter().enumerate() {
        let terms = terms_of([i as u8 + 1; 16]);
        deliver(&mut store, &SwapEvent::OrderAdded { terms, value: *value }).unwrap();
    }
    let elsewhere = OrderTerms { sell_chain_id: 60, ..terms_of([9; 16]) };
    deliver(&mut store, &SwapEvent::OrderAdded { terms: elsewhere, value: 1 }).unwrap();
    let mut other_pair = terms_of([8; 16]);
    other_pair.order.asset_id = [1; 8];
    deliver(&mut store, &SwapEvent::OrderAdded { terms: other_pair, value: 2 }).unwrap();

    let book = walk_order_book(&store, &market());
    let listed: Vec<u128> = book.iter().map(|entry| entry.value).collect();
    assert_eq!(listed, vec![5, 255, 256, 700, 1 << 80]);
    let ids: Vec<u8> = book.iter().map(|entry| entry.order_id[0]).collect();
    assert_eq!(ids, vec![2, 5, 4, 1, 3]);

    let withdrawn = terms_of([4; 16]);
    deliver(&mut store, &SwapEvent::OrderRefreshed { terms: withdrawn, found: None }).unwrap();
    assert_eq!(held(&store, &withdrawn), None);
    let book = walk_order_book(&store, &market());
    let listed: Vec<u128> = book.iter().map(|entry| entry.value).collect();
    assert_eq!(listed, vec![5, 255, 700, 1 << 80]);
    assert!(book.iter().all(|entry| entry.order_id != [4; 16]));
    assert!(store.order_static.contains_key(&withdrawn.order_key().serialize()));

    let emptied = terms_of([2; 16]);
    deliver(&mut store, &SwapEvent::OrderRemoved { terms: emptied, value: 5 }).unwrap();
    let book = walk_order_book(&store, &market());
    let listed: Vec<u128> = book.iter().map(|entry| entry.value).collect();
    assert_eq!(listed, vec![0, 255, 700, 1 << 80]);

    let other = Market { buy_asset_id: [1; 8], ..market() };
    assert_eq!(walk_order_book(&store, &other), vec![other_pair.list_key(2)]);
    let none = Market { buy_chain_id: 77, ..market() };
    assert_eq!(walk_order_book(&store, &none), Vec::new());
}

#[test]
fn a_refresh_sets_the_value_the_chain_holds() {
    let mut store = new_store();
    let refreshed = |found| SwapEvent::OrderRefreshed { terms: terms(), found };
    let outcome = deliver(&mut store, &refreshed(None)).unwrap();
    assert_eq!(outcome.ops, vec![IndexOp::PutOrderStatic { key: terms().order_key(), order: order() }]);
    let again = deliver(&mut store, &refreshed(None)).unwrap();
    assert_eq!(again.ops, Vec::new());
    assert_eq!(again.notices, Vec::new());
    deliver(&mut store, &refreshed(Some(40))).unwrap();
    assert_eq!(held(&store, &terms()), Some(40));
    deliver(&mut store, &refreshed(Some(15))).unwrap();
    assert_eq!(held(&store, &terms()), Some(15));
    assert_eq!(walk_order_book(&store, &market()), vec![terms().list_key(15)]);
    deliver(&mut store, &refreshed(None)).unwrap();
    assert_eq!(held(&store, &terms()), None);
    assert_eq!(walk_order_book(&store, &market()), Vec::new());
    assert!(store.order_list.is_empty());
}

#[test]
fn buy_lock_then_unlock() {
    let mut store = new_store();
    let order_id = [0x0d; 16];
    let locked = deliver(&mut store, &buy_locked(order_id, 600)).unwrap();
    let filed = OrderLockListKey {
        chain_id: 76,
        adapter_id: 0,
        order_id,
        value: 600,
        hashed_secret: hash_secret(&SECRET),
    };
    assert_eq!(locked.ops.len(), 2);
    assert_eq!(locked.ops[0], IndexOp::PutOrderLockList { filed });
    assert_eq!(
        locked.notices,
        vec![
            Notice::OrderBook {
                market: Market { sell_chain_id: 76, sell_asset_id: [0; 8], buy_chain_id: 9001, buy_asset_id: [0; 8] }
            },
            Notice::Order { key: OrderKey { chain_id: 76, adapter_id: 0, order_id } },
        ]
    );
    let record = store.buy_lock[&lock_key().serialize()];
    assert_eq!(
        record,
        BuyLock {
            order_id,
            value: 600,
            timeout: 1_700_000_000,
            buyer: [0xb1; 32],
            foreign_address: [0xfa; 32],
            state: LockState::Locked,
        }
    );

    let unlock = SwapEvent::BuyUnlocked {
        lock: LockKey { chain_id: 76, adapter_id: 0, hashed_secret: hash_secret(&SECRET) },
        buyer: [0xb1; 32],
    };
    let unlocked = deliver(&mut store, &unlock).unwrap();
    assert_eq!(unlocked.notices, vec![Notice::Order { key: OrderKey { chain_id: 76, adapter_id: 0, order_id } }]);
    let order_key = OrderKey { chain_id: 76, adapter_id: 0, order_id };
    let locks = walk_locks(&store, &order_key);
    assert_eq!(locks, vec![filed]);
    let record = store.buy_lock[&locks[0].records_key().serialize()];
    assert_eq!(record.state, LockState::Unlocked);
    assert_eq!(record.order_id, order_id);
    assert_eq!(record.value, 600);
}

#[test]
fn buy_unlock_without_a_lock_is_an_error() {
    let mut store = new_store();
    let unlock = SwapEvent::BuyUnlocked { lock: lock_key(), buyer: [0xb1; 32] };
    assert_eq!(deliver(&mut store, &unlock).err(), Some(ConsistencyError::MissingBuyLock));
    let timeout = SwapEvent::BuyTimedOut { lock: lock_key(), buyer: [0xb1; 32] };
    assert_eq!(deliver(&mut store, &timeout).err(), Some(ConsistencyError::MissingBuyLock));
    assert!(store.buy_lock.is_empty());
    assert!(store.order_lock_list.is_empty());
    deliver(&mut store, &buy_locked([0x0d; 16], 600)).unwrap();
    assert!(deliver(&mut store, &unlock).is_ok());
}

#[test]
fn buy_lock_times_out() {
    let mut store = new_store();
    deliver(&mut store, &buy_locked([0x0d; 16], 600)).unwrap();
    let timeout = SwapEvent::BuyTimedOut { lock: lock_key(), buyer: [0xb1; 32] };
    deliver(&mut store, &timeout).unwrap();
    assert_eq!(store.buy_lock[&lock_key().serialize()].state, LockState::TimedOut);
    let unlock = SwapEvent::BuyUnlocked { lock: lock_key(), buyer: [0xb1; 32] };
    let late = deliver(&mut store, &unlock).unwrap();
    assert_eq!(late.ops, Vec::new());
    assert_eq!(late.notices, Vec::new());
    assert_eq!(store.buy_lock[&lock_key().serialize()].state, LockState::TimedOut);
}

#[test]
fn sell_lock_life_cycle() {
    let mut store = new_store();
    let outcome = deliver(&mut store, &sell_locked(77)).unwrap();
    assert_eq!(
        outcome.ops,
        vec![IndexOp::PutSellLock {
            lock_key: sell_key(),
            sell_lock: SellLock { state: LockState::Locked, timeout: 77, secret: None },
        }]
    );
    assert_eq!(
        outcome.notices,
        vec![Notice::Order { key: OrderKey { chain_id: 9001, adapter_id: 0, order_id: [0x0d; 16] } }]
    );
    deliver(&mut store, &sell_unlocked()).unwrap();
    assert_eq!(
        store.sell_lock[&sell_key().serialize()],
        SellLock { state: LockState::Unlocked, timeout: 77, secret: Some(SECRET) }
    );
}

#[test]
fn sell_unlock_before_lock_is_tolerated() {
    let mut store = new_store();
    deliver(&mut store, &sell_unlocked()).unwrap();
    assert_eq!(
        store.sell_lock[&sell_key().serialize()],
        SellLock { state: LockState::Unlocked, timeout: 0, secret: Some(SECRET) }
    );
}

#[test]
fn sell_lock_times_out() {
    let mut store = new_store();
    deliver(&mut store, &sell_locked(77)).unwrap();
    deliver(&mut store, &sell_timed_out()).unwrap();
    assert_eq!(
        store.sell_lock[&sell_key().serialize()],
        SellLock { state: LockState::TimedOut, timeout: 77, secret: None }
    );
}

#[test]
fn a_finished_lock_changes_no_more() {
    let mut store = new_store();
    deliver(&mut store, &sell_locked(77)).unwrap();
    deliver(&mut store, &sell_unlocked()).unwrap();
    let finished = store.sell_lock[&sell_key().serialize()];
    for event in [sell_locked(99), sell_unlocked(), sell_timed_out(), sell_locked(77)] {
        let outcome = deliver(&mut store, &event).unwrap();
        assert_eq!(outcome.ops, Vec::new());
        assert_eq!(outcome.notices, Vec::new());
        assert_eq!(store.sell_lock[&sell_key().serialize()], finished);
    }

    deliver(&mut store, &buy_locked([0x0d; 16], 600)).unwrap();
    deliver(&mut store, &SwapEvent::BuyUnlocked { lock: lock_key(), buyer: [0xb1; 32] }).unwrap();
    let finished = store.buy_lock[&lock_key().serialize()];
    let lists = store.order_lock_list.clone();
    for event in [
        buy_locked([0x0e; 16], 1),
        SwapEvent::BuyTimedOut { lock: lock_key(), buyer: [0xb1; 32] },
        SwapEvent::BuyUnlocked { lock: lock_key(), buyer: [0xb1; 32] },
    ] {
        let outcome = deliver(&mut store, &event).unwrap();
        assert_eq!(outcome.ops, Vec::new());
        assert_eq!(store.buy_lock[&lock_key().serialize()], finished);
        assert_eq!(store.order_lock_list, lists);
    }
}

#[test]
fn a_lock_event_seen_twice_counts_once() {
    let mut store = new_store();
    deliver(&mut store, &sell_locked(77)).unwrap();
    let once = store.sell_lock.clone();
    deliver(&mut store, &sell_locked(77)).unwrap();
    assert_eq!(store.sell_lock, once);

    deliver(&mut store, &buy_locked([0x0d; 16], 600)).unwrap();
    let (locks, lists) = (store.buy_lock.clone(), store.order_lock_list.clone());
    deliver(&mut store, &buy_locked([0x0d; 16], 600)).unwrap();
    assert_eq!(store.buy_lock, locks);
    assert_eq!(store.order_lock_list, lists);
    assert_eq!(store.order_lock_list.len(), 1);
}

#[test]
fn a_later_lock_event_overwrites_an_open_lock() {
    let mut store = new_store();
    deliver(&mut store, &sell_locked(77)).unwrap();
    deliver(&mut store, &sell_locked(99)).unwrap();
    assert_eq!(
        store.sell_lock[&sell_key().serialize()],
        SellLock { state: LockState::Locked, timeout: 99, secret: None }
    );
}

#[test]
fn locks_of_an_order_are_walked_by_value() {
    let mut store = new_store();
    let order_id = [0x0d; 16];
    let values: [u128; 4] = [600, 20, 1 << 70, 21];
    for (i, value) in values.iter().enumerate() {
        let event = SwapEvent::BuyLocked {
            lock: LockKey { chain_id: 76, adapter_id: 0, hashed_secret: [i as u8; 32] },
            market: market(),
            order_id,
            value: *value,
            timeout: 1,
            buyer: [0xb1; 32],
            foreign_address: [0xfa; 32],
        };
        deliver(&mut store, &event).unwrap();
    }
    let stranger = SwapEvent::BuyLocked {
        lock: LockKey { chain_id: 76, adapter_id: 0, hashed_secret: [9; 32] },
        market: market(),
        order_id: [0x0e; 16],
        value: 5,
        timeout: 1,
        buyer: [0xb1; 32],
        foreign_address: [0xfa; 32],
    };
    deliver(&mut store, &stranger).unwrap();
    let order_key = OrderKey { chain_id: 76, adapter_id: 0, order_id };
    let locks = walk_locks(&store, &order_key);
    let listed: Vec<(u128, u8)> = locks.iter().map(|e| (e.value, e.hashed_secret[0])).collect();
    assert_eq!(listed, vec![(20, 1), (21, 3), (600, 0), (1 << 70, 2)]);
    assert!(locks.iter().all(|entry| store.buy_lock.contains_key(&entry.records_key().serialize())));
    let other_adapter = OrderKey { chain_id: 76, adapter_id: 1, order_id };
    assert_eq!(walk_locks(&store, &other_adapter), Vec::new());
}

#[test]
fn every_write_names_its_table() {
    let key = terms().order_key();
    let entry = terms().list_key(1);
    let filed = OrderLockListKey { chain_id: 1, adapter_id: 2, order_id: [3; 16], value: 4, hashed_secret: [5; 32] };
    let buy_lock = BuyLock {
        order_id: [3; 16],
        value: 4,
        timeout: 5,
        buyer: [6; 32],
        foreign_address: [7; 32],
        state: LockState::Locked,
    };
    let sell_lock = SellLock { state: LockState::Locked, timeout: 5, secret: None };
    let cases = [
        (IndexOp::PutOrderStatic { key, order: order() }, Table::OrderStatic, "order_static", key.serialize()),
        (IndexOp::PutOrderValue { key, value: 1 }, Table::OrderValue, "order_value", key.serialize()),
        (IndexOp::DeleteOrderValue { key }, Table::OrderValue, "order_value", key.serialize()),
        (IndexOp::PutOrderList { entry }, Table::OrderList, "order_list", entry.serialize()),
        (IndexOp::DeleteOrderList { entry }, Table::OrderList, "order_list", entry.serialize()),
        (IndexOp::PutOrderLockList { filed }, Table::OrderLockList, "order_lock_list", filed.serialize()),
        (IndexOp::PutBuyLock { lock_key: lock_key(), buy_lock }, Table::BuyLock, "buy_lock", lock_key().serialize()),
        (IndexOp::PutSellLock { lock_key: sell_key(), sell_lock }, Table::SellLock, "sell_lock", sell_key().serialize()),
    ];
    for (op, table, name, bytes) in cases {
        assert_eq!(op.table(), table);
        assert_eq!(op.table().as_str(), name);
        assert_eq!(op.key(), bytes);
    }
}

#[test]
fn every_event_names_the_records_it_needs() {
    let order_plan = ReadPlan { order: Some(terms().order_key()), sell_lock: None, buy_lock: None };
    assert_eq!(added(1).reads(), order_plan);
    assert_eq!(removed(1).reads(), order_plan);
    assert_eq!(SwapEvent::OrderRefreshed { terms: terms(), found: None }.reads(), order_plan);
    let sell_plan = ReadPlan { order: None, sell_lock: Some(sell_key()), buy_lock: None };
    assert_eq!(sell_locked(1).reads(), sell_plan);
    assert_eq!(sell_unlocked().reads(), sell_plan);
    assert_eq!(sell_timed_out().reads(), sell_plan);
    let buy_plan = ReadPlan { order: None, sell_lock: None, buy_lock: Some(lock_key()) };
    assert_eq!(buy_locked([1; 16], 1).reads(), buy_plan);
    assert_eq!(SwapEvent::BuyUnlocked { lock: lock_key(), buyer: [0; 32] }.reads(), buy_plan);
    assert_eq!(SwapEvent::BuyTimedOut { lock: lock_key(), buyer: [0; 32] }.reads(), buy_plan);
}
