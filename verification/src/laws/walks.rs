//! The read side: what a forward walk of the store gives to a request.

use vstd::prelude::*;
use crate::bytes::{be_bytes, lemma_array_of_view, lemma_lex_le_first_field, lemma_lex_le_is_numeric, lex_le};
use crate::events::Market;
use crate::hexstr::lemma_hex_round_trip;
use crate::index::{lookup, IndexState, Notice};
use crate::laws::layout::{
    lemma_order_book_sorted_by_value,
    lemma_order_list_bytes_round_trip,
    lemma_order_list_key_round_trip,
    lemma_order_lock_list_key_round_trip,
    lemma_u128_field,
    lemma_u32_field,
};
use crate::query::{
    book_entries,
    book_len,
    lock_list_entries,
    lock_list_len,
    spec_parse_request,
    Query,
    RequestError,
};
use crate::shared::{OrderKey, OrderListKey, OrderLockListKey};

verus! {

/// Whether `keys` stand in ascending bytewise order, as a forward walk of
/// an ordered store meets them.
pub open spec fn ascending(keys: Seq<Seq<u8>>) -> bool {
    forall|i: int, j: int| 0 <= i < j < keys.len() ==> lex_le(#[trigger] keys[i], #[trigger] keys[j])
}

/// Every key that counts for an order book is a key of that order book.
proof fn lemma_book_entries_listed(market: Market, keys: Seq<Seq<u8>>, i: int)
    requires
        0 <= i < book_len(market, keys),
    ensures
        i < keys.len(),
        market.spec_entry(keys[i]) == Some(book_entries(market, keys)[i]),
    decreases keys.len(),
{
    if i > 0 {
        lemma_book_entries_listed(market, keys.drop_first(), i - 1);
        assert(keys.drop_first()[i - 1] == keys[i]);
    }
}

/// A walk of an order book meets the orders by value, lowest first: the
/// entries picked out of keys in ascending order have values that never
/// decrease.
pub proof fn lemma_order_book_ascending(market: Market, keys: Seq<Seq<u8>>)
    requires
        ascending(keys),
    ensures
        forall|i: int, j: int|
            0 <= i < j < book_entries(market, keys).len() ==> (#[trigger] book_entries(
                market,
                keys,
            )[i]).value <= (#[trigger] book_entries(market, keys)[j]).value,
{
    let book = book_entries(market, keys);
    assert forall|i: int, j: int| 0 <= i < j < book.len() implies (#[trigger] book[i]).value <= (
    #[trigger] book[j]).value by {
        lemma_book_entries_listed(market, keys, i);
        lemma_book_entries_listed(market, keys, j);
        lemma_order_list_bytes_round_trip(keys[i]);
        lemma_order_list_bytes_round_trip(keys[j]);
        lemma_order_book_sorted_by_value(book[i], book[j]);
        assert(lex_le(keys[i], keys[j]));
    }
}

/// A walk of an order book meets live orders only: where the tables agree
/// and the keys come from the order book table, every entry picked out is
/// the entry of an order that holds a value, and stands at that value. An
/// order that was withdrawn is not met.
pub proof fn lemma_order_book_lists_live_orders(
    state: IndexState,
    market: Market,
    keys: Seq<Seq<u8>>,
)
    requires
        state.consistent(),
        forall|i: int|
            0 <= i < keys.len() ==> exists|entry: OrderListKey|
                state.order_list.dom().contains(entry) && entry.bytes() == #[trigger] keys[i],
    ensures
        forall|i: int|
            0 <= i < book_entries(market, keys).len() ==> {
                let entry = #[trigger] book_entries(market, keys)[i];
                &&& market.lists(entry)
                &&& state.order_list.dom().contains(entry)
                &&& lookup(state.order_value, entry.order_key()) == Some(entry.value)
                &&& state.order_static.dom().contains(entry.order_key())
            },
{
    let book = book_entries(market, keys);
    assert forall|i: int| 0 <= i < book.len() implies {
        let entry = #[trigger] book[i];
        &&& market.lists(entry)
        &&& state.order_list.dom().contains(entry)
        &&& lookup(state.order_value, entry.order_key()) == Some(entry.value)
        &&& state.order_static.dom().contains(entry.order_key())
    } by {
        lemma_book_entries_listed(market, keys, i);
        let stored = choose|entry: OrderListKey|
            state.order_list.dom().contains(entry) && entry.bytes() == keys[i];
        lemma_order_list_key_round_trip(stored);
        assert(book[i] == stored);
    }
}

/// A notice is a request that the query surface understands: read back, it
/// asks for the order book or the order that the notice is about.
pub proof fn lemma_notice_is_its_request(notice: Notice)
    ensures
        spec_parse_request(notice.request()) == (match notice {
            Notice::OrderBook { market } => Ok::<Query, RequestError>(
                Query::OrderBook { market },
            ),
            Notice::Order { key } => Ok::<Query, RequestError>(Query::Order { key }),
        }),
{
    match notice {
        Notice::OrderBook { market } => {
            lemma_hex_round_trip(market.sell_asset_id@);
            lemma_hex_round_trip(market.buy_asset_id@);
            lemma_array_of_view::<8>(market.sell_asset_id);
            lemma_array_of_view::<8>(market.buy_asset_id);
        },
        Notice::Order { key } => {
            lemma_hex_round_trip(key.order_id@);
            lemma_array_of_view::<16>(key.order_id);
        },
    }
}

/// Every key that counts for the locks of an order is a lock-list key of
/// that order.
proof fn lemma_lock_entries_listed(order: OrderKey, keys: Seq<Seq<u8>>, i: int)
    requires
        0 <= i < lock_list_len(order, keys),
    ensures
        i < keys.len(),
        order.spec_lock_entry(keys[i]) == Some(lock_list_entries(order, keys)[i]),
    decreases keys.len(),
{
    if i > 0 {
        lemma_lock_entries_listed(order, keys.drop_first(), i - 1);
        assert(keys.drop_first()[i - 1] == keys[i]);
    }
}

/// A walk of the locks of an order meets locks that are on record: where
/// the tables agree and the keys come from the lock-list table, every entry
/// picked out belongs to the order and has its buy lock in the index.
pub proof fn lemma_lock_walk_meets_recorded_locks(
    state: IndexState,
    order: OrderKey,
    keys: Seq<Seq<u8>>,
)
    requires
        state.consistent(),
        forall|i: int|
            0 <= i < keys.len() ==> exists|entry: OrderLockListKey|
                state.order_lock_list.dom().contains(entry) && entry.bytes() == #[trigger] keys[i],
    ensures
        forall|i: int|
            0 <= i < lock_list_entries(order, keys).len() ==> {
                let entry = #[trigger] lock_list_entries(order, keys)[i];
                &&& entry.order_key() == order
                &&& state.order_lock_list.dom().contains(entry)
                &&& state.buy_lock.dom().contains(entry.lock_key())
            },
{
    let found = lock_list_entries(order, keys);
    assert forall|i: int| 0 <= i < found.len() implies {
        let entry = #[trigger] found[i];
        &&& entry.order_key() == order
        &&& state.order_lock_list.dom().contains(entry)
        &&& state.buy_lock.dom().contains(entry.lock_key())
    } by {
        lemma_lock_entries_listed(order, keys, i);
        let stored = choose|entry: OrderLockListKey|
            state.order_lock_list.dom().contains(entry) && entry.bytes() == keys[i];
        lemma_order_lock_list_key_round_trip(stored);
        assert(found[i] == stored);
    }
}

/// Keys of one width that stand in both orders are the same key.
proof fn lemma_lex_le_antisymmetric(a: Seq<u8>, b: Seq<u8>)
    requires
        a.len() == b.len(),
        lex_le(a, b),
        lex_le(b, a),
    ensures
        a == b,
{
    lemma_lex_le_is_numeric(a, b);
    lemma_lex_le_is_numeric(b, a);
}

/// A key of 60 bytes between the least key of an order book and a key of
/// that order book is itself a key of that order book: the entries of one
/// book stand together in the table.
proof fn lemma_order_book_is_contiguous(market: Market, low: Seq<u8>, high: Seq<u8>)
    requires
        low.len() == 60,
        lex_le(market.first_key().bytes(), low),
        lex_le(low, high),
        market.spec_entry(high) is Some,
    ensures
        market.spec_entry(low) is Some,
{
    let first = market.first_key();
    let top = OrderListKey::from_bytes(high);
    let found = OrderListKey::from_bytes(low);
    lemma_order_list_bytes_round_trip(high);
    lemma_order_list_bytes_round_trip(low);
    lemma_u32_field(market.sell_chain_id);
    lemma_u32_field(market.buy_chain_id);
    lemma_u128_field(0);
    lemma_u32_field(0);
    lemma_u128_field(top.value);
    lemma_u32_field(top.sell_adapter_id);
    lemma_u128_field(found.value);
    lemma_u32_field(found.sell_adapter_id);
    lemma_u32_field(found.sell_chain_id);
    lemma_u32_field(found.buy_chain_id);
    let prefix = first.prefix();
    assert(top.prefix() =~= prefix);
    let other = found.prefix();
    let first_rest = be_bytes(0, 16) + first.suffix();
    let top_rest = be_bytes(top.value as nat, 16) + top.suffix();
    let found_rest = be_bytes(found.value as nat, 16) + found.suffix();
    assert(first.bytes() =~= prefix + first_rest);
    assert(high =~= prefix + top_rest);
    assert(low =~= other + found_rest);
    assert(prefix.len() == 24 && other.len() == 24);
    if other != prefix {
        lemma_lex_le_first_field(prefix, other, first_rest, found_rest);
        lemma_lex_le_first_field(other, prefix, found_rest, top_rest);
        lemma_lex_le_antisymmetric(prefix, other);
    }
    assert(other.subrange(0, 4) =~= be_bytes(found.sell_chain_id as nat, 4));
    assert(prefix.subrange(0, 4) =~= be_bytes(market.sell_chain_id as nat, 4));
    assert(other.subrange(4, 12) =~= found.sell_asset_id@);
    assert(prefix.subrange(4, 12) =~= market.sell_asset_id@);
    assert(other.subrange(12, 16) =~= be_bytes(found.buy_chain_id as nat, 4));
    assert(prefix.subrange(12, 16) =~= be_bytes(market.buy_chain_id as nat, 4));
    assert(other.subrange(16, 24) =~= found.buy_asset_id@);
    assert(prefix.subrange(16, 24) =~= market.buy_asset_id@);
    assert(found.sell_asset_id =~= market.sell_asset_id);
    assert(found.buy_asset_id =~= market.buy_asset_id);
}

/// A walk of an order book misses no order: where the keys are those that
/// a forward walk from the least key of the book meets, in ascending order
/// and each 60 bytes long, every key among them that belongs to the book is
/// among the entries picked out.
pub proof fn lemma_order_book_walk_is_complete(market: Market, keys: Seq<Seq<u8>>)
    requires
        ascending(keys),
        forall|i: int| 0 <= i < keys.len() ==> (#[trigger] keys[i]).len() == 60,
        forall|i: int|
            0 <= i < keys.len() ==> lex_le(market.first_key().bytes(), #[trigger] keys[i]),
    ensures
        forall|i: int|
            0 <= i < keys.len() && market.spec_entry(#[trigger] keys[i]) is Some ==> i < book_len(
                market,
                keys,
            ),
    decreases keys.len(),
{
    if keys.len() > 0 {
        let rest = keys.drop_first();
        assert forall|i: int, j: int| 0 <= i < j < rest.len() implies lex_le(
            #[trigger] rest[i],
            #[trigger] rest[j],
        ) by {
            assert(rest[i] == keys[i + 1] && rest[j] == keys[j + 1]);
        }
        assert forall|i: int| 0 <= i < rest.len() implies (#[trigger] rest[i]).len() == 60 && lex_le(
            market.first_key().bytes(),
            rest[i],
        ) by {
            assert(rest[i] == keys[i + 1]);
        }
        lemma_order_book_walk_is_complete(market, rest);
        assert forall|i: int|
            0 <= i < keys.len() && market.spec_entry(#[trigger] keys[i]) is Some implies i
            < book_len(market, keys) by {
            if i > 0 {
                lemma_order_book_is_contiguous(market, keys[0], keys[i]);
                assert(rest[i - 1] == keys[i]);
            }
        }
    }
}

} // verus!
