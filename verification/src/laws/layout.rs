//! The layouts of the keys and of the bytes hashed into an order identity:
//! what is written is what is read, and the bytewise order of the order
//! book is the order of the values.

use vstd::prelude::*;
use crate::bytes::{
    be_bytes,
    be_value,
    le_bytes,
    le_value,
    lemma_array_of,
    lemma_array_of_view,
    lemma_be_bytes_len,
    lemma_be_bytes_of_value,
    lemma_be_value_bound,
    lemma_be_value_of_bytes,
    lemma_le_bytes_len,
    lemma_le_value_of_bytes,
    lemma_lex_le_common_prefix,
    lemma_lex_le_first_field,
    lemma_lex_le_is_numeric,
    lemma_pow256_values,
    lex_le,
};
use crate::shared::{LockKey, OrderKey, OrderListKey, OrderLockListKey, OrderStatic};

verus! {

/// A 32-bit number is the number that its four bytes spell.
pub proof fn lemma_u32_field(x: u32)
    ensures
        be_bytes(x as nat, 4).len() == 4,
        be_value(be_bytes(x as nat, 4)) == x,
        le_bytes(x as nat, 4).len() == 4,
        le_value(le_bytes(x as nat, 4)) == x,
{
    lemma_pow256_values();
    lemma_be_bytes_len(x as nat, 4);
    lemma_be_value_of_bytes(x as nat, 4);
    lemma_le_bytes_len(x as nat, 4);
    lemma_le_value_of_bytes(x as nat, 4);
}

/// A 128-bit number is the number that its sixteen bytes spell.
pub proof fn lemma_u128_field(x: u128)
    ensures
        be_bytes(x as nat, 16).len() == 16,
        be_value(be_bytes(x as nat, 16)) == x,
        le_bytes(x as nat, 16).len() == 16,
        le_value(le_bytes(x as nat, 16)) == x,
{
    lemma_pow256_values();
    lemma_be_bytes_len(x as nat, 16);
    lemma_be_value_of_bytes(x as nat, 16);
    lemma_le_bytes_len(x as nat, 16);
    lemma_le_value_of_bytes(x as nat, 16);
}

/// Reading back the key of an order-book entry gives the entry: the layout
/// that `serialize` writes is the layout that `unserialize` reads.
pub proof fn lemma_order_list_key_round_trip(key: OrderListKey)
    ensures
        key.bytes().len() == 60,
        OrderListKey::from_bytes(key.bytes()) == key,
{
    let s = key.bytes();
    lemma_u32_field(key.sell_chain_id);
    lemma_u32_field(key.buy_chain_id);
    lemma_u32_field(key.sell_adapter_id);
    lemma_u128_field(key.value);
    assert(s.subrange(0, 4) =~= be_bytes(key.sell_chain_id as nat, 4));
    assert(s.subrange(4, 12) =~= key.sell_asset_id@);
    assert(s.subrange(12, 16) =~= be_bytes(key.buy_chain_id as nat, 4));
    assert(s.subrange(16, 24) =~= key.buy_asset_id@);
    assert(s.subrange(24, 40) =~= be_bytes(key.value as nat, 16));
    assert(s.subrange(40, 44) =~= be_bytes(key.sell_adapter_id as nat, 4));
    assert(s.subrange(44, 60) =~= key.order_id@);
    lemma_array_of_view::<8>(key.sell_asset_id);
    lemma_array_of_view::<8>(key.buy_asset_id);
    lemma_array_of_view::<16>(key.order_id);
}

/// Every 60 bytes are the key of exactly the entry that they are read as.
pub proof fn lemma_order_list_bytes_round_trip(s: Seq<u8>)
    requires
        s.len() == 60,
    ensures
        OrderListKey::from_bytes(s).bytes() == s,
{
    let key = OrderListKey::from_bytes(s);
    lemma_pow256_values();
    lemma_be_value_bound(s.subrange(0, 4));
    lemma_be_value_bound(s.subrange(12, 16));
    lemma_be_value_bound(s.subrange(24, 40));
    lemma_be_value_bound(s.subrange(40, 44));
    lemma_be_bytes_of_value(s.subrange(0, 4));
    lemma_be_bytes_of_value(s.subrange(12, 16));
    lemma_be_bytes_of_value(s.subrange(24, 40));
    lemma_be_bytes_of_value(s.subrange(40, 44));
    lemma_array_of::<8>(s.subrange(4, 12));
    lemma_array_of::<8>(s.subrange(16, 24));
    lemma_array_of::<16>(s.subrange(44, 60));
    assert(key.bytes() =~= s);
}

/// Reading back the key of a lock-list entry gives the entry.
pub proof fn lemma_order_lock_list_key_round_trip(key: OrderLockListKey)
    ensures
        key.bytes().len() == 72,
        OrderLockListKey::from_bytes(key.bytes()) == key,
{
    let s = key.bytes();
    lemma_u32_field(key.chain_id);
    lemma_u32_field(key.adapter_id);
    lemma_u128_field(key.value);
    assert(s.subrange(0, 4) =~= be_bytes(key.chain_id as nat, 4));
    assert(s.subrange(4, 8) =~= be_bytes(key.adapter_id as nat, 4));
    assert(s.subrange(8, 24) =~= key.order_id@);
    assert(s.subrange(24, 40) =~= be_bytes(key.value as nat, 16));
    assert(s.subrange(40, 72) =~= key.hashed_secret@);
    lemma_array_of_view::<16>(key.order_id);
    lemma_array_of_view::<32>(key.hashed_secret);
}

/// Every 72 bytes are the key of exactly the entry that they are read as:
/// the hashed secret starts where the value ends.
pub proof fn lemma_order_lock_list_bytes_round_trip(s: Seq<u8>)
    requires
        s.len() == 72,
    ensures
        OrderLockListKey::from_bytes(s).bytes() == s,
{
    let key = OrderLockListKey::from_bytes(s);
    lemma_pow256_values();
    lemma_be_value_bound(s.subrange(0, 4));
    lemma_be_value_bound(s.subrange(4, 8));
    lemma_be_value_bound(s.subrange(24, 40));
    lemma_be_bytes_of_value(s.subrange(0, 4));
    lemma_be_bytes_of_value(s.subrange(4, 8));
    lemma_be_bytes_of_value(s.subrange(24, 40));
    lemma_array_of::<16>(s.subrange(8, 24));
    lemma_array_of::<32>(s.subrange(40, 72));
    assert(key.bytes() =~= s);
}

/// Two orders never share a key.
pub proof fn lemma_order_key_injective(a: OrderKey, b: OrderKey)
    requires
        a.bytes() == b.bytes(),
    ensures
        a == b,
{
    lemma_u32_field(a.chain_id);
    lemma_u32_field(a.adapter_id);
    lemma_u32_field(b.chain_id);
    lemma_u32_field(b.adapter_id);
    let (s, t) = (a.bytes(), b.bytes());
    assert(s.subrange(0, 4) =~= be_bytes(a.chain_id as nat, 4));
    assert(t.subrange(0, 4) =~= be_bytes(b.chain_id as nat, 4));
    assert(s.subrange(4, 8) =~= be_bytes(a.adapter_id as nat, 4));
    assert(t.subrange(4, 8) =~= be_bytes(b.adapter_id as nat, 4));
    assert(s.subrange(8, 24) =~= a.order_id@);
    assert(t.subrange(8, 24) =~= b.order_id@);
    assert(a.order_id =~= b.order_id);
}

/// Two locks never share a key.
pub proof fn lemma_lock_key_injective(a: LockKey, b: LockKey)
    requires
        a.bytes() == b.bytes(),
    ensures
        a == b,
{
    lemma_u32_field(a.chain_id);
    lemma_u32_field(a.adapter_id);
    lemma_u32_field(b.chain_id);
    lemma_u32_field(b.adapter_id);
    let (s, t) = (a.bytes(), b.bytes());
    assert(s.subrange(0, 4) =~= be_bytes(a.chain_id as nat, 4));
    assert(t.subrange(0, 4) =~= be_bytes(b.chain_id as nat, 4));
    assert(s.subrange(4, 8) =~= be_bytes(a.adapter_id as nat, 4));
    assert(t.subrange(4, 8) =~= be_bytes(b.adapter_id as nat, 4));
    assert(s.subrange(8, 40) =~= a.hashed_secret@);
    assert(t.subrange(8, 40) =~= b.hashed_secret@);
    assert(a.hashed_secret =~= b.hashed_secret);
}

/// Within one order book the bytewise order of the keys is the order of the
/// values: a walk of the keys in ascending order meets the values in
/// non-decreasing order, and a smaller value always comes first.
pub proof fn lemma_order_book_sorted_by_value(a: OrderListKey, b: OrderListKey)
    requires
        a.sell_chain_id == b.sell_chain_id,
        a.sell_asset_id == b.sell_asset_id,
        a.buy_chain_id == b.buy_chain_id,
        a.buy_asset_id == b.buy_asset_id,
    ensures
        lex_le(a.bytes(), b.bytes()) ==> a.value <= b.value,
        a.value < b.value ==> lex_le(a.bytes(), b.bytes()),
{
    let prefix = a.prefix();
    let (va, vb) = (be_bytes(a.value as nat, 16), be_bytes(b.value as nat, 16));
    lemma_u128_field(a.value);
    lemma_u128_field(b.value);
    assert(a.bytes() =~= prefix + (va + a.suffix()));
    assert(b.bytes() =~= prefix + (vb + b.suffix()));
    lemma_lex_le_common_prefix(prefix, va + a.suffix(), vb + b.suffix());
    lemma_lex_le_is_numeric(va, vb);
    if va != vb {
        lemma_lex_le_first_field(va, vb, a.suffix(), b.suffix());
    }
}

/// The bytes hashed into an order identity determine every term: orders
/// with different terms are hashed from different bytes, so two of them
/// share an identity only where the hash itself collides.
pub proof fn lemma_order_preimage_injective(a: OrderStatic, b: OrderStatic)
    requires
        a.preimage() == b.preimage(),
    ensures
        a == b,
{
    lemma_u32_field(a.chain_id);
    lemma_u32_field(a.adapter_id);
    lemma_u128_field(a.price);
    lemma_u32_field(b.chain_id);
    lemma_u32_field(b.adapter_id);
    lemma_u128_field(b.price);
    let (s, t) = (a.preimage(), b.preimage());
    assert(s.subrange(0, 32) =~= a.seller@);
    assert(t.subrange(0, 32) =~= b.seller@);
    assert(s.subrange(32, 36) =~= le_bytes(a.chain_id as nat, 4));
    assert(t.subrange(32, 36) =~= le_bytes(b.chain_id as nat, 4));
    assert(s.subrange(36, 40) =~= le_bytes(a.adapter_id as nat, 4));
    assert(t.subrange(36, 40) =~= le_bytes(b.adapter_id as nat, 4));
    assert(s.subrange(40, 48) =~= a.asset_id@);
    assert(t.subrange(40, 48) =~= b.asset_id@);
    assert(s.subrange(48, 64) =~= le_bytes(a.price as nat, 16));
    assert(t.subrange(48, 64) =~= le_bytes(b.price as nat, 16));
    assert(s.subrange(64, 96) =~= a.foreign_address@);
    assert(t.subrange(64, 96) =~= b.foreign_address@);
    assert(a.seller =~= b.seller);
    assert(a.asset_id =~= b.asset_id);
    assert(a.foreign_address =~= b.foreign_address);
}

/// The identity of an order is a function of its terms: the same terms give
/// the same identity, and the identity is the hash of the 96 bytes that
/// spell them.
pub proof fn lemma_order_id_deterministic(a: OrderStatic, b: OrderStatic)
    requires
        a == b,
    ensures
        a.order_id() == b.order_id(),
        a.preimage().len() == 96,
{
    lemma_u32_field(a.chain_id);
    lemma_u32_field(a.adapter_id);
    lemma_u128_field(a.price);
}

} // verus!
