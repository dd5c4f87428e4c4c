//! Canonical domain model: identifiers, records and the layouts of the keys
//! under which the index files them.
//!
//! A key is the concatenation of its fields, each at its fixed width, numbers
//! big-endian. Every layout is written down once, as a spec function, and the
//! function that writes a key and the function that reads it back are both
//! held to it.

use vstd::prelude::*;
use crate::bytes::{array_of, be_bytes, be_value, le_bytes, lemma_array_of, push_be, push_le, read_be};
use crate::hashing::{blake2_128, blake2_128_digest};
use crate::scale::{encode_array, encode_u32};

verus! {

/// Where an order lives: the chain and adapter it is sold on, and its
/// identity there.
#[derive(Clone, Copy, Debug, PartialEq, Eq)]
pub struct OrderKey {
    /// The selling chain.
    pub chain_id: u32,
    /// The selling adapter.
    pub adapter_id: u32,
    pub order_id: [u8; 16],
}

/// The sort position of an order in the order book of one asset pair.
#[derive(Clone, Copy, Debug, PartialEq, Eq)]
pub struct OrderListKey {
    pub sell_chain_id: u32,
    pub sell_asset_id: [u8; 8],
    pub buy_chain_id: u32,
    pub buy_asset_id: [u8; 8],
    pub value: u128,
    pub sell_adapter_id: u32,
    pub order_id: [u8; 16],
}

/// The position of one buy lock in the list of locks against an order.
#[derive(Clone, Copy, Debug, PartialEq, Eq)]
pub struct OrderLockListKey {
    /// The selling chain.
    pub chain_id: u32,
    /// The selling adapter.
    pub adapter_id: u32,
    pub order_id: [u8; 16],
    pub value: u128,
    pub hashed_secret: [u8; 32],
}

/// The terms of an order that never change.
#[derive(Clone, Copy, Debug, PartialEq, Eq)]
pub struct OrderStatic {
    pub seller: [u8; 32],
    /// The buying chain.
    pub chain_id: u32,
    /// The buying adapter.
    pub adapter_id: u32,
    /// The buying asset.
    pub asset_id: [u8; 8],
    pub price: u128,
    pub foreign_address: [u8; 32],
}

/// The state of one side of a hashed-timelock swap.
#[derive(Clone, Copy, Debug, PartialEq, Eq)]
pub enum LockState {
    NotLocked,
    Locked,
    Unlocked,
    TimedOut,
    Invalid,
}

/// Where a lock record lives.
#[derive(Clone, Copy, Debug, PartialEq, Eq)]
pub struct LockKey {
    /// The selling chain.
    pub chain_id: u32,
    /// The selling adapter.
    pub adapter_id: u32,
    pub hashed_secret: [u8; 32],
}

/// The lock that a buyer placed on the buying chain.
#[derive(Clone, Copy, Debug, PartialEq, Eq)]
pub struct BuyLock {
    pub order_id: [u8; 16],
    pub value: u128,
    pub timeout: u128,
    pub buyer: [u8; 32],
    pub foreign_address: [u8; 32],
    pub state: LockState,
}

/// The lock that the seller placed on the selling chain.
#[derive(Clone, Copy, Debug, PartialEq, Eq)]
pub struct SellLock {
    pub state: LockState,
    pub timeout: u128,
    pub secret: Option<[u8; 32]>,
}

/// A question put to the index, identifiers in hexadecimal.
#[derive(Clone, Debug, PartialEq, Eq)]
pub enum RequestMessage {
    GetOrderBook { sell_chain_id: u32, sell_asset_id: String, buy_chain_id: u32, buy_asset_id: String },
    GetOrder { sell_chain_id: u32, sell_adapter_id: u32, order_id: String },
}

/// Copies `N` bytes of `data`, starting at `offset`, into an array.
pub fn take_array<const N: usize>(data: &[u8], offset: usize) -> (arr: [u8; N])
    requires
        offset + N <= data@.len(),
    ensures
        arr@ == data@.subrange(offset as int, offset + N),
        arr == array_of::<N>(data@.subrange(offset as int, offset + N)),
{
    let size = data.len();
    let mut arr = [0u8;N];
    let mut i: usize = 0;
    while i < N
        invariant
            i <= N,
            offset + N <= data@.len() == size,
            forall|j: int| 0 <= j < i ==> arr@[j] == data@[offset + j],
        decreases N - i,
    {
        arr[i] = data[offset + i];
        i += 1;
    }
    proof {
        let field = data@.subrange(offset as int, offset + N);
        assert(arr@ =~= field);
        lemma_array_of::<N>(field);
        assert(arr =~= array_of::<N>(field));
    }
    arr
}

/// Copies a byte slice into a freshly allocated vector.
pub fn array_to_vec(arr: &[u8]) -> (vector: Vec<u8>)
    ensures
        vector@ == arr@,
{
    let mut vector: Vec<u8> = Vec::new();
    let mut i: usize = 0;
    while i < arr.len()
        invariant
            i <= arr.len(),
            vector@ == arr@.subrange(0, i as int),
        decreases arr.len() - i,
    {
        vector.push(arr[i]);
        i += 1;
    }
    vector
}

/// The first 32 bytes of `vector`.
pub fn vector_as_u8_32_array(vector: &Vec<u8>) -> (arr: [u8; 32])
    requires
        vector@.len() >= 32,
    ensures
        arr@ == vector@.subrange(0, 32),
{
    take_array::<32>(vector.as_slice(), 0)
}

/// The first 16 bytes of `vector`.
pub fn vector_as_u8_16_array(vector: &Vec<u8>) -> (arr: [u8; 16])
    requires
        vector@.len() >= 16,
    ensures
        arr@ == vector@.subrange(0, 16),
{
    take_array::<16>(vector.as_slice(), 0)
}

/// The first 8 bytes of `vector`.
pub fn vector_as_u8_8_array(vector: &Vec<u8>) -> (arr: [u8; 8])
    requires
        vector@.len() >= 8,
    ensures
        arr@ == vector@.subrange(0, 8),
{
    take_array::<8>(vector.as_slice(), 0)
}

/// The first 4 bytes of `vector`.
pub fn vector_as_u8_4_array(vector: &Vec<u8>) -> (arr: [u8; 4])
    requires
        vector@.len() >= 4,
    ensures
        arr@ == vector@.subrange(0, 4),
{
    take_array::<4>(vector.as_slice(), 0)
}

/// The 32 bytes of `vector` that start at `offset`.
pub fn vector_as_u8_32_array_offset(vector: &Vec<u8>, offset: usize) -> (arr: [u8; 32])
    requires
        offset + 32 <= vector@.len(),
    ensures
        arr@ == vector@.subrange(offset as int, offset + 32),
{
    take_array::<32>(vector.as_slice(), offset)
}

/// The 20 bytes of `vector` that start at `offset`.
pub fn vector_as_u8_20_array_offset(vector: &Vec<u8>, offset: usize) -> (arr: [u8; 20])
    requires
        offset + 20 <= vector@.len(),
    ensures
        arr@ == vector@.subrange(offset as int, offset + 20),
{
    take_array::<20>(vector.as_slice(), offset)
}

/// The 16 bytes of `vector` that start at `offset`.
pub fn vector_as_u8_16_array_offset(vector: &Vec<u8>, offset: usize) -> (arr: [u8; 16])
    requires
        offset + 16 <= vector@.len(),
    ensures
        arr@ == vector@.subrange(offset as int, offset + 16),
{
    take_array::<16>(vector.as_slice(), offset)
}

/// Whether two arrays hold the same bytes.
pub fn same_bytes<const N: usize>(a: &[u8; N], b: &[u8; N]) -> (same: bool)
    ensures
        same == (a == b),
{
    let mut i: usize = 0;
    while i < N
        invariant
            i <= N,
            forall|j: int| 0 <= j < i ==> a@[j] == b@[j],
        decreases N - i,
    {
        if a[i] != b[i] {
            return false;
        }
        i += 1;
    }
    assert(a =~= b);
    true
}

impl OrderKey {
    /// The layout of the key: chain, adapter, order identity; 24 bytes.
    pub open spec fn bytes(self) -> Seq<u8> {
        be_bytes(self.chain_id as nat, 4) + be_bytes(self.adapter_id as nat, 4) + self.order_id@
    }

    /// Writes the key as the store files it.
    pub fn serialize(&self) -> (out: Vec<u8>)
        ensures
            out@ == self.bytes(),
    {
        let mut out: Vec<u8> = Vec::new();
        push_be(&mut out, self.chain_id as u128, 4);
        push_be(&mut out, self.adapter_id as u128, 4);
        out.extend_from_slice(self.order_id.as_slice());
        out
    }
}

impl OrderListKey {
    /// The four fields that name an order book.
    pub open spec fn prefix(self) -> Seq<u8> {
        be_bytes(self.sell_chain_id as nat, 4) + self.sell_asset_id@ + be_bytes(
            self.buy_chain_id as nat,
            4,
        ) + self.buy_asset_id@
    }

    /// What follows the value: the selling adapter and the order identity.
    pub open spec fn suffix(self) -> Seq<u8> {
        be_bytes(self.sell_adapter_id as nat, 4) + self.order_id@
    }

    /// The layout of the key: the asset pair, then the value, then the
    /// order; 60 bytes.
    pub open spec fn bytes(self) -> Seq<u8> {
        self.prefix() + be_bytes(self.value as nat, 16) + self.suffix()
    }

    /// The key that `s` spells; meaningful when `s` has 60 bytes.
    pub open spec fn from_bytes(s: Seq<u8>) -> OrderListKey {
        OrderListKey {
            sell_chain_id: be_value(s.subrange(0, 4)) as u32,
            sell_asset_id: array_of::<8>(s.subrange(4, 12)),
            buy_chain_id: be_value(s.subrange(12, 16)) as u32,
            buy_asset_id: array_of::<8>(s.subrange(16, 24)),
            value: be_value(s.subrange(24, 40)) as u128,
            sell_adapter_id: be_value(s.subrange(40, 44)) as u32,
            order_id: array_of::<16>(s.subrange(44, 60)),
        }
    }

    /// The order that the entry lists.
    pub open spec fn order_key(self) -> OrderKey {
        OrderKey {
            chain_id: self.sell_chain_id,
            adapter_id: self.sell_adapter_id,
            order_id: self.order_id,
        }
    }

    /// Writes the key as the store files it.
    pub fn serialize(&self) -> (out: Vec<u8>)
        ensures
            out@ == self.bytes(),
    {
        let mut out: Vec<u8> = Vec::new();
        push_be(&mut out, self.sell_chain_id as u128, 4);
        out.extend_from_slice(self.sell_asset_id.as_slice());
        push_be(&mut out, self.buy_chain_id as u128, 4);
        out.extend_from_slice(self.buy_asset_id.as_slice());
        push_be(&mut out, self.value, 16);
        push_be(&mut out, self.sell_adapter_id as u128, 4);
        out.extend_from_slice(self.order_id.as_slice());
        assert(out@ =~= self.bytes());
        out
    }

    /// Reads a key of 60 bytes back.
    pub fn unserialize(vec: Vec<u8>) -> (key: OrderListKey)
        requires
            vec@.len() == 60,
        ensures
            key == Self::from_bytes(vec@),
    {
        let data = vec.as_slice();
        proof {
            crate::bytes::lemma_be_value_bound(data@.subrange(0, 4));
            crate::bytes::lemma_be_value_bound(data@.subrange(12, 16));
            crate::bytes::lemma_be_value_bound(data@.subrange(40, 44));
            crate::bytes::lemma_pow256_values();
        }
        OrderListKey {
            sell_chain_id: read_be(data, 0, 4) as u32,
            sell_asset_id: take_array::<8>(data, 4),
            buy_chain_id: read_be(data, 12, 4) as u32,
            buy_asset_id: take_array::<8>(data, 16),
            value: read_be(data, 24, 16),
            sell_adapter_id: read_be(data, 40, 4) as u32,
            order_id: take_array::<16>(data, 44),
        }
    }
}

impl OrderLockListKey {
    /// The three fields that name the order.
    pub open spec fn prefix(self) -> Seq<u8> {
        be_bytes(self.chain_id as nat, 4) + be_bytes(self.adapter_id as nat, 4) + self.order_id@
    }

    /// The layout of the key: the order, then the locked value, then the
    /// hashed secret, each field where the one before it ends; 72 bytes.
    pub open spec fn bytes(self) -> Seq<u8> {
        self.prefix() + be_bytes(self.value as nat, 16) + self.hashed_secret@
    }

    /// The key that `s` spells; meaningful when `s` has 72 bytes.
    pub open spec fn from_bytes(s: Seq<u8>) -> OrderLockListKey {
        OrderLockListKey {
            chain_id: be_value(s.subrange(0, 4)) as u32,
            adapter_id: be_value(s.subrange(4, 8)) as u32,
            order_id: array_of::<16>(s.subrange(8, 24)),
            value: be_value(s.subrange(24, 40)) as u128,
            hashed_secret: array_of::<32>(s.subrange(40, 72)),
        }
    }

    /// The order that the lock was placed against.
    pub open spec fn order_key(self) -> OrderKey {
        OrderKey { chain_id: self.chain_id, adapter_id: self.adapter_id, order_id: self.order_id }
    }

    /// Where the two lock records of this entry live.
    pub open spec fn lock_key(self) -> LockKey {
        LockKey {
            chain_id: self.chain_id,
            adapter_id: self.adapter_id,
            hashed_secret: self.hashed_secret,
        }
    }

    /// Writes the key as the store files it.
    pub fn serialize(&self) -> (out: Vec<u8>)
        ensures
            out@ == self.bytes(),
    {
        let mut out: Vec<u8> = Vec::new();
        push_be(&mut out, self.chain_id as u128, 4);
        push_be(&mut out, self.adapter_id as u128, 4);
        out.extend_from_slice(self.order_id.as_slice());
        push_be(&mut out, self.value, 16);
        out.extend_from_slice(self.hashed_secret.as_slice());
        assert(out@ =~= self.bytes());
        out
    }

    /// Reads a key of 72 bytes back.
    pub fn unserialize(vec: Vec<u8>) -> (key: OrderLockListKey)
        requires
            vec@.len() == 72,
        ensures
            key == Self::from_bytes(vec@),
    {
        let data = vec.as_slice();
        proof {
            crate::bytes::lemma_be_value_bound(data@.subrange(0, 4));
            crate::bytes::lemma_be_value_bound(data@.subrange(4, 8));
            crate::bytes::lemma_pow256_values();
        }
        OrderLockListKey {
            chain_id: read_be(data, 0, 4) as u32,
            adapter_id: read_be(data, 4, 4) as u32,
            order_id: take_array::<16>(data, 8),
            value: read_be(data, 24, 16),
            hashed_secret: take_array::<32>(data, 40),
        }
    }
}

impl LockKey {
    /// The layout of the key: chain, adapter, hashed secret; 40 bytes.
    pub open spec fn bytes(self) -> Seq<u8> {
        be_bytes(self.chain_id as nat, 4) + be_bytes(self.adapter_id as nat, 4)
            + self.hashed_secret@
    }

    /// Writes the key as the store files it.
    pub fn serialize(&self) -> (out: Vec<u8>)
        ensures
            out@ == self.bytes(),
    {
        let mut out: Vec<u8> = Vec::new();
        push_be(&mut out, self.chain_id as u128, 4);
        push_be(&mut out, self.adapter_id as u128, 4);
        out.extend_from_slice(self.hashed_secret.as_slice());
        out
    }
}

impl OrderStatic {
    /// The bytes that are hashed into the order identity: every term at its
    /// fixed width, numbers least significant byte first; 96 bytes.
    pub open spec fn preimage(self) -> Seq<u8> {
        self.seller@ + le_bytes(self.chain_id as nat, 4) + le_bytes(self.adapter_id as nat, 4)
            + self.asset_id@ + le_bytes(self.price as nat, 16) + self.foreign_address@
    }

    /// The identity of the order with these terms.
    pub open spec fn order_id(self) -> Seq<u8> {
        blake2_128_digest(self.preimage())
    }

    /// Derives the identity of the order from its terms alone: equal terms
    /// give equal identities.
    pub fn get_order_id(&self) -> (id: [u8; 16])
        ensures
            id@ == self.order_id(),
    {
        let mut input = encode_array(&self.seller);
        let chain = encode_u32(self.chain_id);
        input.extend_from_slice(chain.as_slice());
        let adapter = encode_u32(self.adapter_id);
        input.extend_from_slice(adapter.as_slice());
        let asset = encode_array(&self.asset_id);
        input.extend_from_slice(asset.as_slice());
        push_le(&mut input, self.price, 16);
        let foreign = encode_array(&self.foreign_address);
        input.extend_from_slice(foreign.as_slice());
        assert(input@ =~= self.preimage());
        blake2_128(input.as_slice())
    }

    /// Whether two records state the same terms.
    pub fn same_terms(&self, other: &OrderStatic) -> (same: bool)
        ensures
            same == (*self == *other),
    {
        same_bytes(&self.seller, &other.seller) && self.chain_id == other.chain_id
            && self.adapter_id == other.adapter_id && same_bytes(&self.asset_id, &other.asset_id)
            && self.price == other.price && same_bytes(
            &self.foreign_address,
            &other.foreign_address,
        )
    }
}

impl LockState {
    /// Whether the state is final: an unlocked or timed-out lock changes no
    /// more.
    pub open spec fn terminal(self) -> bool {
        self == LockState::Unlocked || self == LockState::TimedOut
    }

    /// Tells whether the state is final.
    pub fn is_terminal(&self) -> (terminal: bool)
        ensures
            terminal == self.terminal(),
    {
        match self {
            LockState::Unlocked => true,
            LockState::TimedOut => true,
            _ => false,
        }
    }

    /// The name of the state, as responses spell it.
    pub open spec fn name(self) -> Seq<char> {
        match self {
            LockState::NotLocked => "NotLocked"@,
            LockState::Locked => "Locked"@,
            LockState::Unlocked => "Unlocked"@,
            LockState::TimedOut => "TimedOut"@,
            LockState::Invalid => "Invalid"@,
        }
    }

    /// The name of the state, as responses spell it.
    pub fn to_string(&self) -> (name: String)
        ensures
            name@ == self.name(),
    {
        match self {
            LockState::NotLocked => "NotLocked".to_string(),
            LockState::Locked => "Locked".to_string(),
            LockState::Unlocked => "Unlocked".to_string(),
            LockState::TimedOut => "TimedOut".to_string(),
            LockState::Invalid => "Invalid".to_string(),
        }
    }
}

impl SellLock {
    /// The record that stands for a sell lock of which nothing was seen yet.
    pub open spec fn unseen() -> SellLock {
        SellLock { state: LockState::NotLocked, timeout: 0, secret: None }
    }
}

} // verus!
