//! The adapter for the native chain.
//!
//! The native chain reports its events as records of fixed layout: every
//! field at its width, one after the other, numbers least significant byte
//! first. What an order holds is not in its events. After an event that
//! may have changed it the chain is asked, by a key derived from the order
//! identity, and the answer, or the lack of one, becomes the new value of
//! the order in the index.
//!
//! So an event of the native chain is handled in three steps. `decode`
//! reads the record. `refresh_target` names the order whose value must be
//! fetched, and `order_value_storage_key` the key to fetch it by. `canonical`
//! takes what came back, together with the static record that the index
//! holds for the order, and gives the canonical events to process.

use vstd::prelude::*;
use vstd::string::StringSliceAdditionalSpecFns;
use crate::bytes::{
    array_of,
    be_value,
    field_at,
    lemma_array_of_view,
    lemma_be_value_bound,
    lemma_pow256_values,
    read_be,
    read_field,
    read_u128_le,
    read_u64_le,
    u128_le_at,
    u64_le_at,
};
use crate::events::{hash_secret, hashed_secret_of, OrderTerms, SwapEvent};
use crate::hashing::{blake2_128, blake2_128_digest, twox_128, twox_128_digest};
use crate::scale::encode_array;
use crate::shared::{take_array, LockKey, OrderKey, OrderStatic};

verus! {

/// The events of the swap module of the native chain.
#[derive(Clone, Copy, Debug, PartialEq, Eq)]
pub enum NativeEventKind {
    AddToOrder,
    RemoveFromOrder,
    LockSell,
    UnlockSell,
    TimeoutSell,
    LockBuy,
    UnlockBuy,
    TimeoutBuy,
}

/// An event of the native chain, its fields read.
#[derive(Clone, Copy, Debug, PartialEq, Eq)]
pub enum NativeEvent {
    AddToOrder {
        seller: [u8; 32],
        asset_id: [u8; 16],
        price: u128,
        foreign_address: [u8; 32],
        value: u128,
    },
    RemoveFromOrder {
        seller: [u8; 32],
        asset_id: [u8; 16],
        price: u128,
        foreign_address: [u8; 32],
        value: u128,
    },
    LockSell { order_id: [u8; 16], hashed_secret: [u8; 32], timeout: u64, value: u128 },
    UnlockSell { order_id: [u8; 16], secret: [u8; 32], buyer: [u8; 32] },
    TimeoutSell { order_id: [u8; 16], hashed_secret: [u8; 32] },
    LockBuy {
        buyer: [u8; 32],
        seller: [u8; 32],
        hashed_secret: [u8; 32],
        timeout: u64,
        value: u128,
        asset_id: [u8; 16],
        order_id: [u8; 16],
    },
    UnlockBuy { buyer: [u8; 32], hashed_secret: [u8; 32] },
    TimeoutBuy { buyer: [u8; 32], hashed_secret: [u8; 32] },
}

/// The native chain as a place where orders are sold.
#[derive(Clone, Copy, Debug, PartialEq, Eq)]
pub struct NativeAdapter {
    pub chain_id: u32,
    pub adapter_id: u32,
    /// The asset that orders on this chain sell.
    pub asset_id: [u8; 8],
}

/// The name of the swap module in the events of the chain.
pub open spec fn module_name() -> Seq<char> {
    "AtomicSwap"@
}

/// The kind of event that a variant name of the swap module stands for.
pub open spec fn kind_named(variant: Seq<char>) -> Option<NativeEventKind> {
    if variant == "AddToOrder"@ {
        Some(NativeEventKind::AddToOrder)
    } else if variant == "RemoveFromOrder"@ {
        Some(NativeEventKind::RemoveFromOrder)
    } else if variant == "LockSell"@ {
        Some(NativeEventKind::LockSell)
    } else if variant == "UnlockSell"@ {
        Some(NativeEventKind::UnlockSell)
    } else if variant == "TimeoutSell"@ {
        Some(NativeEventKind::TimeoutSell)
    } else if variant == "LockBuy"@ {
        Some(NativeEventKind::LockBuy)
    } else if variant == "UnlockBuy"@ {
        Some(NativeEventKind::UnlockBuy)
    } else if variant == "TimeoutBuy"@ {
        Some(NativeEventKind::TimeoutBuy)
    } else {
        None
    }
}

/// The kind of an event, by the module and the variant that the chain names
/// it with; `None` for what is not an event of the swap module.
pub open spec fn spec_event_kind(module: Seq<char>, variant: Seq<char>) -> Option<NativeEventKind> {
    if module == module_name() {
        kind_named(variant)
    } else {
        None
    }
}

fn same_text(a: &str, b: &str) -> (same: bool)
    ensures
        same == (a@ == b@),
{
    a.to_string() == b.to_string()
}

/// Tells which event of the swap module a record is, by the names that the
/// chain gives it.
pub fn event_kind(module: &str, variant: &str) -> (kind: Option<NativeEventKind>)
    ensures
        kind == spec_event_kind(module@, variant@),
{
    if !same_text(module, "AtomicSwap") {
        None
    } else if same_text(variant, "AddToOrder") {
        Some(NativeEventKind::AddToOrder)
    } else if same_text(variant, "RemoveFromOrder") {
        Some(NativeEventKind::RemoveFromOrder)
    } else if same_text(variant, "LockSell") {
        Some(NativeEventKind::LockSell)
    } else if same_text(variant, "UnlockSell") {
        Some(NativeEventKind::UnlockSell)
    } else if same_text(variant, "TimeoutSell") {
        Some(NativeEventKind::TimeoutSell)
    } else if same_text(variant, "LockBuy") {
        Some(NativeEventKind::LockBuy)
    } else if same_text(variant, "UnlockBuy") {
        Some(NativeEventKind::UnlockBuy)
    } else if same_text(variant, "TimeoutBuy") {
        Some(NativeEventKind::TimeoutBuy)
    } else {
        None
    }
}

/// The record that `data` holds for an event of `kind`, if `data` is long
/// enough for all its fields. Bytes after the last field are not read.
pub open spec fn spec_decode(kind: NativeEventKind, data: Seq<u8>) -> Option<NativeEvent> {
    match kind {
        NativeEventKind::AddToOrder => if data.len() >= 112 {
            Some(
                NativeEvent::AddToOrder {
                    seller: field_at::<32>(data, 0).unwrap(),
                    asset_id: field_at::<16>(data, 32).unwrap(),
                    price: u128_le_at(data, 48).unwrap(),
                    foreign_address: field_at::<32>(data, 64).unwrap(),
                    value: u128_le_at(data, 96).unwrap(),
                },
            )
        } else {
            None
        },
        NativeEventKind::RemoveFromOrder => if data.len() >= 112 {
            Some(
                NativeEvent::RemoveFromOrder {
                    seller: field_at::<32>(data, 0).unwrap(),
                    asset_id: field_at::<16>(data, 32).unwrap(),
                    price: u128_le_at(data, 48).unwrap(),
                    foreign_address: field_at::<32>(data, 64).unwrap(),
                    value: u128_le_at(data, 96).unwrap(),
                },
            )
        } else {
            None
        },
        NativeEventKind::LockSell => if data.len() >= 72 {
            Some(
                NativeEvent::LockSell {
                    order_id: field_at::<16>(data, 0).unwrap(),
                    hashed_secret: field_at::<32>(data, 16).unwrap(),
                    timeout: u64_le_at(data, 48).unwrap(),
                    value: u128_le_at(data, 56).unwrap(),
                },
            )
        } else {
            None
        },
        NativeEventKind::UnlockSell => if data.len() >= 80 {
            Some(
                NativeEvent::UnlockSell {
                    order_id: field_at::<16>(data, 0).unwrap(),
                    secret: field_at::<32>(data, 16).unwrap(),
                    buyer: field_at::<32>(data, 48).unwrap(),
                },
            )
        } else {
            None
        },
        NativeEventKind::TimeoutSell => if data.len() >= 48 {
            Some(
                NativeEvent::TimeoutSell {
                    order_id: field_at::<16>(data, 0).unwrap(),
                    hashed_secret: field_at::<32>(data, 16).unwrap(),
                },
            )
        } else {
            None
        },
        NativeEventKind::LockBuy => if data.len() >= 152 {
            Some(
                NativeEvent::LockBuy {
                    buyer: field_at::<32>(data, 0).unwrap(),
                    seller: field_at::<32>(data, 32).unwrap(),
                    hashed_secret: field_at::<32>(data, 64).unwrap(),
                    timeout: u64_le_at(data, 96).unwrap(),
                    value: u128_le_at(data, 104).unwrap(),
                    asset_id: field_at::<16>(data, 120).unwrap(),
                    order_id: field_at::<16>(data, 136).unwrap(),
                },
            )
        } else {
            None
        },
        NativeEventKind::UnlockBuy => if data.len() >= 64 {
            Some(
                NativeEvent::UnlockBuy {
                    buyer: field_at::<32>(data, 0).unwrap(),
                    hashed_secret: field_at::<32>(data, 32).unwrap(),
                },
            )
        } else {
            None
        },
        NativeEventKind::TimeoutBuy => if data.len() >= 64 {
            Some(
                NativeEvent::TimeoutBuy {
                    buyer: field_at::<32>(data, 0).unwrap(),
                    hashed_secret: field_at::<32>(data, 32).unwrap(),
                },
            )
        } else {
            None
        },
    }
}

/// Reads the record of an event of `kind`; `None` where `data` is too short
/// for it.
pub fn decode(kind: NativeEventKind, data: &Vec<u8>) -> (event: Option<NativeEvent>)
    ensures
        event == spec_decode(kind, data@),
{
    let blob = data.as_slice();
    match kind {
        NativeEventKind::AddToOrder => {
            match (
                read_field::<32>(blob, 0),
                read_field::<16>(blob, 32),
                read_u128_le(blob, 48),
                read_field::<32>(blob, 64),
                read_u128_le(blob, 96),
            ) {
                (Some(seller), Some(asset_id), Some(price), Some(foreign_address), Some(value)) => Some(
                    NativeEvent::AddToOrder { seller, asset_id, price, foreign_address, value },
                ),
                _ => None,
            }
        },
        NativeEventKind::RemoveFromOrder => {
            match (
                read_field::<32>(blob, 0),
                read_field::<16>(blob, 32),
                read_u128_le(blob, 48),
                read_field::<32>(blob, 64),
                read_u128_le(blob, 96),
            ) {
                (Some(seller), Some(asset_id), Some(price), Some(foreign_address), Some(value)) => Some(
                    NativeEvent::RemoveFromOrder { seller, asset_id, price, foreign_address, value },
                ),
                _ => None,
            }
        },
        NativeEventKind::LockSell => {
            match (
                read_field::<16>(blob, 0),
                read_field::<32>(blob, 16),
                read_u64_le(blob, 48),
                read_u128_le(blob, 56),
            ) {
                (Some(order_id), Some(hashed_secret), Some(timeout), Some(value)) => Some(
                    NativeEvent::LockSell { order_id, hashed_secret, timeout, value },
                ),
                _ => None,
            }
        },
        NativeEventKind::UnlockSell => {
            match (read_field::<16>(blob, 0), read_field::<32>(blob, 16), read_field::<32>(blob, 48)) {
                (Some(order_id), Some(secret), Some(buyer)) => Some(
                    NativeEvent::UnlockSell { order_id, secret, buyer },
                ),
                _ => None,
            }
        },
        NativeEventKind::TimeoutSell => {
            match (read_field::<16>(blob, 0), read_field::<32>(blob, 16)) {
                (Some(order_id), Some(hashed_secret)) => Some(
                    NativeEvent::TimeoutSell { order_id, hashed_secret },
                ),
                _ => None,
            }
        },
        NativeEventKind::LockBuy => {
            match (
                read_field::<32>(blob, 0),
                read_field::<32>(blob, 32),
                read_field::<32>(blob, 64),
                read_u64_le(blob, 96),
                read_u128_le(blob, 104),
                read_field::<16>(blob, 120),
                read_field::<16>(blob, 136),
            ) {
                (
                    Some(buyer),
                    Some(seller),
                    Some(hashed_secret),
                    Some(timeout),
                    Some(value),
                    Some(asset_id),
                    Some(order_id),
                ) => Some(
                    NativeEvent::LockBuy {
                        buyer,
                        seller,
                        hashed_secret,
                        timeout,
                        value,
                        asset_id,
                        order_id,
                    },
                ),
                _ => None,
            }
        },
        NativeEventKind::UnlockBuy => {
            match (read_field::<32>(blob, 0), read_field::<32>(blob, 32)) {
                (Some(buyer), Some(hashed_secret)) => Some(
                    NativeEvent::UnlockBuy { buyer, hashed_secret },
                ),
                _ => None,
            }
        },
        NativeEventKind::TimeoutBuy => {
            match (read_field::<32>(blob, 0), read_field::<32>(blob, 32)) {
                (Some(buyer), Some(hashed_secret)) => Some(
                    NativeEvent::TimeoutBuy { buyer, hashed_secret },
                ),
                _ => None,
            }
        },
    }
}

/// The static record of an order that the native chain reports. The asset
/// that the seller asks for is named by 16 bytes: the chain that pays, the
/// adapter there, and the asset on it.
pub open spec fn order_of(
    seller: [u8; 32],
    asset_id: [u8; 16],
    price: u128,
    foreign_address: [u8; 32],
) -> OrderStatic {
    OrderStatic {
        seller,
        chain_id: be_value(asset_id@.subrange(0, 4)) as u32,
        adapter_id: be_value(asset_id@.subrange(4, 8)) as u32,
        asset_id: array_of::<8>(asset_id@.subrange(8, 16)),
        price,
        foreign_address,
    }
}

fn order_static(
    seller: &[u8; 32],
    asset_id: &[u8; 16],
    price: u128,
    foreign_address: &[u8; 32],
) -> (order: OrderStatic)
    ensures
        order == order_of(*seller, *asset_id, price, *foreign_address),
{
    let locator = asset_id.as_slice();
    proof {
        lemma_be_value_bound(locator@.subrange(0, 4));
        lemma_be_value_bound(locator@.subrange(4, 8));
        lemma_pow256_values();
    }
    OrderStatic {
        seller: *seller,
        chain_id: read_be(locator, 0, 4) as u32,
        adapter_id: read_be(locator, 4, 4) as u32,
        asset_id: take_array::<8>(locator, 8),
        price,
        foreign_address: *foreign_address,
    }
}

impl NativeAdapter {
    /// An order sold on this chain, named by its identity and terms.
    pub open spec fn terms(&self, order_id: [u8; 16], order: OrderStatic) -> OrderTerms {
        OrderTerms {
            sell_chain_id: self.chain_id,
            sell_adapter_id: self.adapter_id,
            sell_asset_id: self.asset_id,
            order_id,
            order,
        }
    }

    /// Where the lock records of a swap sold on this chain live.
    pub open spec fn spec_lock_key(&self, hashed_secret: [u8; 32]) -> LockKey {
        LockKey { chain_id: self.chain_id, adapter_id: self.adapter_id, hashed_secret }
    }

    /// Makes the key of the lock records of a swap sold on this chain.
    #[verifier::when_used_as_spec(spec_lock_key)]
    pub fn lock_key(&self, hashed_secret: [u8; 32]) -> (key: LockKey)
        ensures
            key == self.spec_lock_key(hashed_secret),
    {
        LockKey { chain_id: self.chain_id, adapter_id: self.adapter_id, hashed_secret }
    }

    /// The order whose value the event may have changed.
    pub open spec fn spec_refresh_target(&self, event: NativeEvent) -> Option<OrderKey> {
        match event {
            NativeEvent::AddToOrder { seller, asset_id, price, foreign_address, .. } => Some(
                OrderKey {
                    chain_id: self.chain_id,
                    adapter_id: self.adapter_id,
                    order_id: array_of::<16>(
                        order_of(seller, asset_id, price, foreign_address).order_id(),
                    ),
                },
            ),
            NativeEvent::RemoveFromOrder { seller, asset_id, price, foreign_address, .. } => Some(
                OrderKey {
                    chain_id: self.chain_id,
                    adapter_id: self.adapter_id,
                    order_id: array_of::<16>(
                        order_of(seller, asset_id, price, foreign_address).order_id(),
                    ),
                },
            ),
            NativeEvent::LockSell { order_id, .. } => Some(
                OrderKey { chain_id: self.chain_id, adapter_id: self.adapter_id, order_id },
            ),
            _ => None,
        }
    }

    /// Names the order whose value must be fetched from the chain before
    /// the event can be turned into canonical events, and whose static
    /// record must be read from the index; `None` where the event changes
    /// no order.
    pub fn refresh_target(&self, event: &NativeEvent) -> (target: Option<OrderKey>)
        ensures
            target == self.spec_refresh_target(*event),
    {
        match event {
            NativeEvent::AddToOrder { seller, asset_id, price, foreign_address, .. } => {
                let order_id = order_static(seller, asset_id, *price, foreign_address).get_order_id();
                proof {
                    lemma_array_of_view::<16>(order_id);
                }
                Some(OrderKey { chain_id: self.chain_id, adapter_id: self.adapter_id, order_id })
            },
            NativeEvent::RemoveFromOrder { seller, asset_id, price, foreign_address, .. } => {
                let order_id = order_static(seller, asset_id, *price, foreign_address).get_order_id();
                proof {
                    lemma_array_of_view::<16>(order_id);
                }
                Some(OrderKey { chain_id: self.chain_id, adapter_id: self.adapter_id, order_id })
            },
            NativeEvent::LockSell { order_id, .. } => Some(
                OrderKey {
                    chain_id: self.chain_id,
                    adapter_id: self.adapter_id,
                    order_id: *order_id,
                },
            ),
            _ => None,
        }
    }

    /// The canonical events that an event of the chain amounts to.
    ///
    /// An event that adds to an order or removes from it says that the order
    /// now holds what the chain answered. A sell lock is a lock event and,
    /// since it binds liquidity of its order, a new value for that order as
    /// well, if the index knows the order. The buy side of the native chain
    /// names neither the chain that sells nor the address to pay to, so its
    /// events change nothing in the index.
    pub open spec fn spec_canonical(
        &self,
        event: NativeEvent,
        fetched: Option<u128>,
        stored: Option<OrderStatic>,
    ) -> Seq<SwapEvent> {
        match event {
            NativeEvent::AddToOrder { seller, asset_id, price, foreign_address, .. } => {
                let order = order_of(seller, asset_id, price, foreign_address);
                seq![
                    SwapEvent::OrderRefreshed {
                        terms: self.terms(array_of::<16>(order.order_id()), order),
                        found: fetched,
                    },
                ]
            },
            NativeEvent::RemoveFromOrder { seller, asset_id, price, foreign_address, .. } => {
                let order = order_of(seller, asset_id, price, foreign_address);
                seq![
                    SwapEvent::OrderRefreshed {
                        terms: self.terms(array_of::<16>(order.order_id()), order),
                        found: fetched,
                    },
                ]
            },
            NativeEvent::LockSell { order_id, hashed_secret, timeout, value } => {
                let locked = SwapEvent::SellLocked {
                    lock: self.spec_lock_key(hashed_secret),
                    order_id,
                    value,
                    timeout: timeout as u128,
                };
                if stored is Some {
                    seq![
                        locked,
                        SwapEvent::OrderRefreshed {
                            terms: self.terms(order_id, stored.unwrap()),
                            found: fetched,
                        },
                    ]
                } else {
                    seq![locked]
                }
            },
            NativeEvent::UnlockSell { order_id, secret, .. } => seq![
                SwapEvent::SellUnlocked {
                    lock: self.spec_lock_key(hashed_secret_of(secret)),
                    order_id,
                    secret,
                },
            ],
            NativeEvent::TimeoutSell { order_id, hashed_secret } => seq![
                SwapEvent::SellTimedOut { lock: self.spec_lock_key(hashed_secret), order_id },
            ],
            _ => Seq::empty(),
        }
    }

    /// Says that the order with this identity and these terms now holds
    /// what the chain answered.
    pub fn order_refreshed(&self, order_id: [u8; 16], order: OrderStatic, fetched: Option<u128>) -> (event:
        SwapEvent)
        ensures
            event == (SwapEvent::OrderRefreshed { terms: self.terms(order_id, order), found: fetched }),
    {
        SwapEvent::OrderRefreshed {
            terms: OrderTerms {
                sell_chain_id: self.chain_id,
                sell_adapter_id: self.adapter_id,
                sell_asset_id: self.asset_id,
                order_id,
                order,
            },
            found: fetched,
        }
    }

    /// Turns an event of the chain into canonical events. `fetched` is what
    /// the chain holds for the order of `refresh_target`, `stored` the
    /// static record that the index holds for it; both are `None` where
    /// there is no such order or nothing was found.
    pub fn canonical(&self, event: &NativeEvent, fetched: Option<u128>, stored: Option<OrderStatic>) -> (events:
        Vec<SwapEvent>)
        ensures
            events@ == self.spec_canonical(*event, fetched, stored),
    {
        let mut events: Vec<SwapEvent> = Vec::new();
        match event {
            NativeEvent::AddToOrder { seller, asset_id, price, foreign_address, .. } => {
                let order = order_static(seller, asset_id, *price, foreign_address);
                let order_id = order.get_order_id();
                proof {
                    lemma_array_of_view::<16>(order_id);
                }
                events.push(self.order_refreshed(order_id, order, fetched));
            },
            NativeEvent::RemoveFromOrder { seller, asset_id, price, foreign_address, .. } => {
                let order = order_static(seller, asset_id, *price, foreign_address);
                let order_id = order.get_order_id();
                proof {
                    lemma_array_of_view::<16>(order_id);
                }
                events.push(self.order_refreshed(order_id, order, fetched));
            },
            NativeEvent::LockSell { order_id, hashed_secret, timeout, value } => {
                events.push(
                    SwapEvent::SellLocked {
                        lock: self.lock_key(*hashed_secret),
                        order_id: *order_id,
                        value: *value,
                        timeout: *timeout as u128,
                    },
                );
                match stored {
                    Some(order) => {
                        events.push(self.order_refreshed(*order_id, order, fetched));
                    },
                    None => {},
                }
            },
            NativeEvent::UnlockSell { order_id, secret, .. } => {
                events.push(
                    SwapEvent::SellUnlocked {
                        lock: self.lock_key(hash_secret(secret)),
                        order_id: *order_id,
                        secret: *secret,
                    },
                );
            },
            NativeEvent::TimeoutSell { order_id, hashed_secret } => {
                events.push(
                    SwapEvent::SellTimedOut {
                        lock: self.lock_key(*hashed_secret),
                        order_id: *order_id,
                    },
                );
            },
            _ => {},
        }
        assert(events@ =~= self.spec_canonical(*event, fetched, stored));
        events
    }
}

/// The key of an entry of a storage map of the chain: the hashed names of
/// the module and of the map, then the hashed key, then the key itself.
pub open spec fn storage_map_key_of(module: Seq<u8>, map: Seq<u8>, key: Seq<u8>) -> Seq<u8> {
    twox_128_digest(module) + twox_128_digest(map) + blake2_128_digest(key) + key
}

/// Joins the parts of a storage key: the hashed names of the module and of
/// the map, the hashed key and the key itself.
pub fn join_storage_key(module: &[u8; 16], map: &[u8; 16], hashed: &[u8; 16], key: &[u8]) -> (storage_key:
    Vec<u8>)
    ensures
        storage_key@ == module@ + map@ + hashed@ + key@,
{
    let mut storage_key: Vec<u8> = Vec::new();
    storage_key.extend_from_slice(module.as_slice());
    storage_key.extend_from_slice(map.as_slice());
    storage_key.extend_from_slice(hashed.as_slice());
    storage_key.extend_from_slice(key);
    storage_key
}

/// Derives the key under which a storage map of the chain holds the entry
/// of `key`.
pub fn storage_map_key(module_name: &str, storage_name: &str, key: &[u8; 16]) -> (storage_key: Vec<u8>)
    ensures
        storage_key@ == storage_map_key_of(
            module_name.spec_bytes(),
            storage_name.spec_bytes(),
            key@,
        ),
{
    let module = twox_128(module_name.as_bytes());
    let map = twox_128(storage_name.as_bytes());
    let plain = encode_array(key);
    let hashed = blake2_128(plain.as_slice());
    join_storage_key(&module, &map, &hashed, plain.as_slice())
}

/// Derives the key under which the chain holds the value of an order.
pub fn order_value_storage_key(order_id: &[u8; 16]) -> (storage_key: Vec<u8>)
    ensures
        storage_key@ == storage_map_key_of(
            "AtomicSwap".spec_bytes(),
            "AcuityOrderIdValues".spec_bytes(),
            order_id@,
        ),
{
    storage_map_key("AtomicSwap", "AcuityOrderIdValues", order_id)
}

} // verus!
