//! The adapter for EVM chains.
//!
//! A log of an EVM chain is the address of the contract that wrote it, its
//! topics and a blob of bytes without field names. The adapter holds, as
//! data, what it takes to read such a log: the two contracts it listens to,
//! the topic of each event, and for each event the offset of every field in
//! the blob. Deployed variants of the contracts differ in those offsets, so
//! each variant has a table of its own. A log that does not come from one of
//! the two contracts, whose topic is unknown, or whose blob is too short for
//! a field, decodes to nothing, and the caller goes on with the next one.

use vstd::prelude::*;
use crate::bytes::{
    array_of,
    field_at,
    fits,
    lemma_array_of_view,
    read_field,
    read_u128_be,
    u128_be_at,
};
use crate::events::{hash_secret, hashed_secret_of, Market, OrderTerms, SwapEvent};
use crate::shared::{same_bytes, LockKey, OrderStatic};

verus! {

/// The first topic of each event of the swap contracts.
#[derive(Clone, Copy, Debug, PartialEq, Eq)]
pub struct EventTopics {
    pub add_to_order: [u8; 32],
    pub remove_from_order: [u8; 32],
    pub lock_sell: [u8; 32],
    pub unlock_sell: [u8; 32],
    pub timeout_sell: [u8; 32],
    pub lock_buy: [u8; 32],
    pub unlock_buy: [u8; 32],
    pub timeout_buy: [u8; 32],
}

/// Offsets of the fields of `AddToOrder`: identities 16 bytes, addresses 32
/// bytes, amounts the low 16 bytes of a word.
#[derive(Clone, Copy, Debug, PartialEq, Eq)]
pub struct AddToOrderLayout {
    pub order_id: usize,
    pub seller: usize,
    pub price: usize,
    pub foreign_address: usize,
    pub value: usize,
}

/// Offsets of the fields of `RemoveFromOrder`.
#[derive(Clone, Copy, Debug, PartialEq, Eq)]
pub struct RemoveFromOrderLayout {
    pub seller: usize,
    pub price: usize,
    pub foreign_address: usize,
    pub value: usize,
}

/// Offsets of the fields of `LockSell`.
#[derive(Clone, Copy, Debug, PartialEq, Eq)]
pub struct LockSellLayout {
    pub order_id: usize,
    pub hashed_secret: usize,
    pub timeout: usize,
    pub value: usize,
}

/// Offsets of the fields of `UnlockSell`.
#[derive(Clone, Copy, Debug, PartialEq, Eq)]
pub struct UnlockSellLayout {
    pub order_id: usize,
    pub secret: usize,
}

/// Offsets of the fields of `TimeoutSell`.
#[derive(Clone, Copy, Debug, PartialEq, Eq)]
pub struct TimeoutSellLayout {
    pub order_id: usize,
    pub hashed_secret: usize,
}

/// Offsets of the fields of `LockBuy`.
#[derive(Clone, Copy, Debug, PartialEq, Eq)]
pub struct LockBuyLayout {
    pub buyer: usize,
    pub hashed_secret: usize,
    pub timeout: usize,
    pub value: usize,
    pub order_id: usize,
    pub foreign_address: usize,
}

/// Offsets of the fields of `UnlockBuy`.
#[derive(Clone, Copy, Debug, PartialEq, Eq)]
pub struct UnlockBuyLayout {
    pub buyer: usize,
    pub secret: usize,
}

/// Offsets of the fields of `TimeoutBuy`.
#[derive(Clone, Copy, Debug, PartialEq, Eq)]
pub struct TimeoutBuyLayout {
    pub buyer: usize,
    pub hashed_secret: usize,
}

/// The decode table of one variant of the contracts.
#[derive(Clone, Copy, Debug, PartialEq, Eq)]
pub struct LogLayout {
    pub add_to_order: AddToOrderLayout,
    pub remove_from_order: RemoveFromOrderLayout,
    pub lock_sell: LockSellLayout,
    pub unlock_sell: UnlockSellLayout,
    pub timeout_sell: TimeoutSellLayout,
    pub lock_buy: LockBuyLayout,
    pub unlock_buy: UnlockBuyLayout,
    pub timeout_buy: TimeoutBuyLayout,
}

/// One EVM deployment of the swap contracts.
#[derive(Clone, Copy, Debug, PartialEq, Eq)]
pub struct EvmAdapter {
    /// The chain the contracts are deployed on.
    pub chain_id: u32,
    pub adapter_id: u32,
    /// The asset that the contracts trade on this chain.
    pub asset_id: [u8; 8],
    /// The chain on the other side of every swap.
    pub peer_chain_id: u32,
    pub peer_adapter_id: u32,
    pub peer_asset_id: [u8; 8],
    /// The contract that holds the orders sold on this chain.
    pub sell_contract: [u8; 20],
    /// The contract that holds the locks of buyers paying on this chain.
    pub buy_contract: [u8; 20],
    pub topics: EventTopics,
    pub layout: LogLayout,
}

/// The length of the blob of each event, as the interface of the contracts
/// fixes it.
#[derive(Clone, Copy, Debug, PartialEq, Eq)]
pub struct PayloadLengths {
    pub add_to_order: usize,
    pub remove_from_order: usize,
    pub lock_sell: usize,
    pub unlock_sell: usize,
    pub timeout_sell: usize,
    pub lock_buy: usize,
    pub unlock_buy: usize,
    pub timeout_buy: usize,
}

impl AddToOrderLayout {
    /// Whether every field lies inside a blob of `len` bytes.
    pub open spec fn fits(self, len: int) -> bool {
        &&& self.order_id + 16 <= len
        &&& self.seller + 32 <= len
        &&& self.price + 16 <= len
        &&& self.foreign_address + 32 <= len
        &&& self.value + 16 <= len
    }

    /// Checks that every field lies inside a blob of `len` bytes.
    pub fn fits_in(&self, len: usize) -> (inside: bool)
        ensures
            inside == self.fits(len as int),
    {
        fits(len, self.order_id, 16) && fits(len, self.seller, 32) && fits(len, self.price, 16)
            && fits(len, self.foreign_address, 32) && fits(len, self.value, 16)
    }
}

impl RemoveFromOrderLayout {
    /// Whether every field lies inside a blob of `len` bytes.
    pub open spec fn fits(self, len: int) -> bool {
        &&& self.seller + 32 <= len
        &&& self.price + 16 <= len
        &&& self.foreign_address + 32 <= len
        &&& self.value + 16 <= len
    }

    /// Checks that every field lies inside a blob of `len` bytes.
    pub fn fits_in(&self, len: usize) -> (inside: bool)
        ensures
            inside == self.fits(len as int),
    {
        fits(len, self.seller, 32) && fits(len, self.price, 16) && fits(
            len,
            self.foreign_address,
            32,
        ) && fits(len, self.value, 16)
    }
}

impl LockSellLayout {
    /// Whether every field lies inside a blob of `len` bytes.
    pub open spec fn fits(self, len: int) -> bool {
        &&& self.order_id + 16 <= len
        &&& self.hashed_secret + 32 <= len
        &&& self.timeout + 16 <= len
        &&& self.value + 16 <= len
    }

    /// Checks that every field lies inside a blob of `len` bytes.
    pub fn fits_in(&self, len: usize) -> (inside: bool)
        ensures
            inside == self.fits(len as int),
    {
        fits(len, self.order_id, 16) && fits(len, self.hashed_secret, 32) && fits(
            len,
            self.timeout,
            16,
        ) && fits(len, self.value, 16)
    }
}

impl UnlockSellLayout {
    /// Whether every field lies inside a blob of `len` bytes.
    pub open spec fn fits(self, len: int) -> bool {
        &&& self.order_id + 16 <= len
        &&& self.secret + 32 <= len
    }

    /// Checks that every field lies inside a blob of `len` bytes.
    pub fn fits_in(&self, len: usize) -> (inside: bool)
        ensures
            inside == self.fits(len as int),
    {
        fits(len, self.order_id, 16) && fits(len, self.secret, 32)
    }
}

impl TimeoutSellLayout {
    /// Whether every field lies inside a blob of `len` bytes.
    pub open spec fn fits(self, len: int) -> bool {
        &&& self.order_id + 16 <= len
        &&& self.hashed_secret + 32 <= len
    }

    /// Checks that every field lies inside a blob of `len` bytes.
    pub fn fits_in(&self, len: usize) -> (inside: bool)
        ensures
            inside == self.fits(len as int),
    {
        fits(len, self.order_id, 16) && fits(len, self.hashed_secret, 32)
    }
}

impl LockBuyLayout {
    /// Whether every field lies inside a blob of `len` bytes.
    pub open spec fn fits(self, len: int) -> bool {
        &&& self.buyer + 32 <= len
        &&& self.hashed_secret + 32 <= len
        &&& self.timeout + 16 <= len
        &&& self.value + 16 <= len
        &&& self.order_id + 16 <= len
        &&& self.foreign_address + 32 <= len
    }

    /// Checks that every field lies inside a blob of `len` bytes.
    pub fn fits_in(&self, len: usize) -> (inside: bool)
        ensures
            inside == self.fits(len as int),
    {
        fits(len, self.buyer, 32) && fits(len, self.hashed_secret, 32) && fits(
            len,
            self.timeout,
            16,
        ) && fits(len, self.value, 16) && fits(len, self.order_id, 16) && fits(
            len,
            self.foreign_address,
            32,
        )
    }
}

impl UnlockBuyLayout {
    /// Whether every field lies inside a blob of `len` bytes.
    pub open spec fn fits(self, len: int) -> bool {
        &&& self.buyer + 32 <= len
        &&& self.secret + 32 <= len
    }

    /// Checks that every field lies inside a blob of `len` bytes.
    pub fn fits_in(&self, len: usize) -> (inside: bool)
        ensures
            inside == self.fits(len as int),
    {
        fits(len, self.buyer, 32) && fits(len, self.secret, 32)
    }
}

impl TimeoutBuyLayout {
    /// Whether every field lies inside a blob of `len` bytes.
    pub open spec fn fits(self, len: int) -> bool {
        &&& self.buyer + 32 <= len
        &&& self.hashed_secret + 32 <= len
    }

    /// Checks that every field lies inside a blob of `len` bytes.
    pub fn fits_in(&self, len: usize) -> (inside: bool)
        ensures
            inside == self.fits(len as int),
    {
        fits(len, self.buyer, 32) && fits(len, self.hashed_secret, 32)
    }
}

/// The chain that hosts the native side of the swaps.
pub const NATIVE_CHAIN_ID: u32 = 76;

/// Arbitrum.
pub const ARBITRUM_CHAIN_ID: u32 = 9001;

/// Ethereum.
pub const ETHEREUM_CHAIN_ID: u32 = 60;

impl LogLayout {
    /// The table shared by the known variants, but for `LockBuy`: there the
    /// order identity stands at `lock_buy_order_id`.
    pub open spec fn spec_standard(lock_buy_order_id: usize) -> LogLayout {
        LogLayout {
            add_to_order: AddToOrderLayout {
                order_id: 0,
                seller: 32,
                price: 80,
                foreign_address: 96,
                value: 144,
            },
            remove_from_order: RemoveFromOrderLayout {
                seller: 0,
                price: 48,
                foreign_address: 64,
                value: 112,
            },
            lock_sell: LockSellLayout { order_id: 0, hashed_secret: 32, timeout: 80, value: 112 },
            unlock_sell: UnlockSellLayout { order_id: 0, secret: 32 },
            timeout_sell: TimeoutSellLayout { order_id: 0, hashed_secret: 32 },
            lock_buy: LockBuyLayout {
                buyer: 0,
                hashed_secret: 64,
                timeout: 112,
                value: 144,
                order_id: lock_buy_order_id,
                foreign_address: 192,
            },
            unlock_buy: UnlockBuyLayout { buyer: 0, secret: 32 },
            timeout_buy: TimeoutBuyLayout { buyer: 0, hashed_secret: 32 },
        }
    }

    /// Whether the table reads nothing outside the blobs that the contracts
    /// write: every field of every event lies inside a blob of the length
    /// that `lengths` gives for that event.
    pub open spec fn fits(self, lengths: PayloadLengths) -> bool {
        &&& self.add_to_order.fits(lengths.add_to_order as int)
        &&& self.remove_from_order.fits(lengths.remove_from_order as int)
        &&& self.lock_sell.fits(lengths.lock_sell as int)
        &&& self.unlock_sell.fits(lengths.unlock_sell as int)
        &&& self.timeout_sell.fits(lengths.timeout_sell as int)
        &&& self.lock_buy.fits(lengths.lock_buy as int)
        &&& self.unlock_buy.fits(lengths.unlock_buy as int)
        &&& self.timeout_buy.fits(lengths.timeout_buy as int)
    }

    /// Checks the table against the lengths of the blobs, once, before the
    /// first log is read: a table that fails would decode no log of some
    /// event.
    pub fn validate(&self, lengths: &PayloadLengths) -> (valid: bool)
        ensures
            valid == self.fits(*lengths),
    {
        self.add_to_order.fits_in(lengths.add_to_order) && self.remove_from_order.fits_in(
            lengths.remove_from_order,
        ) && self.lock_sell.fits_in(lengths.lock_sell) && self.unlock_sell.fits_in(
            lengths.unlock_sell,
        ) && self.timeout_sell.fits_in(lengths.timeout_sell) && self.lock_buy.fits_in(
            lengths.lock_buy,
        ) && self.unlock_buy.fits_in(lengths.unlock_buy) && self.timeout_buy.fits_in(
            lengths.timeout_buy,
        )
    }

    /// Makes the table shared by the known variants, with the order identity
    /// of `LockBuy` at `lock_buy_order_id`.
    #[verifier::when_used_as_spec(spec_standard)]
    pub fn standard(lock_buy_order_id: usize) -> (layout: LogLayout)
        ensures
            layout == Self::spec_standard(lock_buy_order_id),
    {
        LogLayout {
            add_to_order: AddToOrderLayout {
                order_id: 0,
                seller: 32,
                price: 80,
                foreign_address: 96,
                value: 144,
            },
            remove_from_order: RemoveFromOrderLayout {
                seller: 0,
                price: 48,
                foreign_address: 64,
                value: 112,
            },
            lock_sell: LockSellLayout { order_id: 0, hashed_secret: 32, timeout: 80, value: 112 },
            unlock_sell: UnlockSellLayout { order_id: 0, secret: 32 },
            timeout_sell: TimeoutSellLayout { order_id: 0, hashed_secret: 32 },
            lock_buy: LockBuyLayout {
                buyer: 0,
                hashed_secret: 64,
                timeout: 112,
                value: 144,
                order_id: lock_buy_order_id,
                foreign_address: 192,
            },
            unlock_buy: UnlockBuyLayout { buyer: 0, secret: 32 },
            timeout_buy: TimeoutBuyLayout { buyer: 0, hashed_secret: 32 },
        }
    }
}

impl EvmAdapter {
    /// The deployment on Arbitrum: it trades the chain's own asset against
    /// the native chain's, and its `LockBuy` has the order identity at 168.
    pub fn arbitrum(topics: EventTopics) -> (adapter: EvmAdapter)
        ensures
            adapter.chain_id == ARBITRUM_CHAIN_ID,
            adapter.adapter_id == 0,
            adapter.asset_id@ == Seq::new(8, |i: int| 0u8),
            adapter.peer_chain_id == NATIVE_CHAIN_ID,
            adapter.peer_adapter_id == 0,
            adapter.peer_asset_id@ == Seq::new(8, |i: int| 0u8),
            adapter.sell_contract@ == seq![
                0x74u8, 0x4a, 0xc7, 0xbb, 0xcf, 0xdd, 0xa8, 0xfd, 0xb4, 0x1c,
                0xf5, 0x5c, 0x02, 0x0d, 0x62, 0xf2, 0x10, 0x98, 0x87, 0xa5,
            ],
            adapter.buy_contract@ == seq![
                0xd0u8, 0x56, 0x47, 0xdd, 0x9d, 0x7b, 0x17, 0xab, 0xeb, 0xa9,
                0x53, 0xfb, 0xf2, 0xdc, 0x8d, 0x8e, 0x87, 0xc1, 0x9c, 0xb3,
            ],
            adapter.topics == topics,
            adapter.layout == LogLayout::spec_standard(168),
    {
        let adapter = EvmAdapter {
            chain_id: ARBITRUM_CHAIN_ID,
            adapter_id: 0,
            asset_id: [0u8;8],
            peer_chain_id: NATIVE_CHAIN_ID,
            peer_adapter_id: 0,
            peer_asset_id: [0u8;8],
            sell_contract: [
                0x74, 0x4a, 0xc7, 0xbb, 0xcf, 0xdd, 0xa8, 0xfd, 0xb4, 0x1c,
                0xf5, 0x5c, 0x02, 0x0d, 0x62, 0xf2, 0x10, 0x98, 0x87, 0xa5,
            ],
            buy_contract: [
                0xd0, 0x56, 0x47, 0xdd, 0x9d, 0x7b, 0x17, 0xab, 0xeb, 0xa9,
                0x53, 0xfb, 0xf2, 0xdc, 0x8d, 0x8e, 0x87, 0xc1, 0x9c, 0xb3,
            ],
            topics,
            layout: LogLayout::standard(168),
        };
        assert(adapter.asset_id@ =~= Seq::new(8, |i: int| 0u8));
        assert(adapter.peer_asset_id@ =~= Seq::new(8, |i: int| 0u8));
        adapter
    }

    /// The deployment on Ethereum: the two contracts of Arbitrum with their
    /// roles exchanged, and `LockBuy` with the order identity at 176.
    pub fn ethereum(topics: EventTopics) -> (adapter: EvmAdapter)
        ensures
            adapter.chain_id == ETHEREUM_CHAIN_ID,
            adapter.adapter_id == 0,
            adapter.asset_id@ == Seq::new(8, |i: int| 0u8),
            adapter.peer_chain_id == NATIVE_CHAIN_ID,
            adapter.peer_adapter_id == 0,
            adapter.peer_asset_id@ == Seq::new(8, |i: int| 0u8),
            adapter.sell_contract@ == seq![
                0xd0u8, 0x56, 0x47, 0xdd, 0x9d, 0x7b, 0x17, 0xab, 0xeb, 0xa9,
                0x53, 0xfb, 0xf2, 0xdc, 0x8d, 0x8e, 0x87, 0xc1, 0x9c, 0xb3,
            ],
            adapter.buy_contract@ == seq![
                0x74u8, 0x4a, 0xc7, 0xbb, 0xcf, 0xdd, 0xa8, 0xfd, 0xb4, 0x1c,
                0xf5, 0x5c, 0x02, 0x0d, 0x62, 0xf2, 0x10, 0x98, 0x87, 0xa5,
            ],
            adapter.topics == topics,
            adapter.layout == LogLayout::spec_standard(176),
    {
        let adapter = EvmAdapter {
            chain_id: ETHEREUM_CHAIN_ID,
            adapter_id: 0,
            asset_id: [0u8;8],
            peer_chain_id: NATIVE_CHAIN_ID,
            peer_adapter_id: 0,
            peer_asset_id: [0u8;8],
            sell_contract: [
                0xd0, 0x56, 0x47, 0xdd, 0x9d, 0x7b, 0x17, 0xab, 0xeb, 0xa9,
                0x53, 0xfb, 0xf2, 0xdc, 0x8d, 0x8e, 0x87, 0xc1, 0x9c, 0xb3,
            ],
            buy_contract: [
                0x74, 0x4a, 0xc7, 0xbb, 0xcf, 0xdd, 0xa8, 0xfd, 0xb4, 0x1c,
                0xf5, 0x5c, 0x02, 0x0d, 0x62, 0xf2, 0x10, 0x98, 0x87, 0xa5,
            ],
            topics,
            layout: LogLayout::standard(176),
        };
        assert(adapter.asset_id@ =~= Seq::new(8, |i: int| 0u8));
        assert(adapter.peer_asset_id@ =~= Seq::new(8, |i: int| 0u8));
        adapter
    }

    /// The terms of an order sold through this deployment.
    pub open spec fn spec_sell_terms(
        &self,
        order_id: [u8; 16],
        seller: [u8; 32],
        price: u128,
        foreign_address: [u8; 32],
    ) -> OrderTerms {
        OrderTerms {
            sell_chain_id: self.chain_id,
            sell_adapter_id: self.adapter_id,
            sell_asset_id: self.asset_id,
            order_id,
            order: self.spec_order_static(seller, price, foreign_address),
        }
    }

    /// The static record of an order sold through this deployment: it is
    /// paid for on the peer chain.
    pub open spec fn spec_order_static(
        &self,
        seller: [u8; 32],
        price: u128,
        foreign_address: [u8; 32],
    ) -> OrderStatic {
        OrderStatic {
            seller,
            chain_id: self.peer_chain_id,
            adapter_id: self.peer_adapter_id,
            asset_id: self.peer_asset_id,
            price,
            foreign_address,
        }
    }

    /// Where the lock records of a swap sold on this chain live.
    pub open spec fn spec_sell_lock_key(&self, hashed_secret: [u8; 32]) -> LockKey {
        LockKey { chain_id: self.chain_id, adapter_id: self.adapter_id, hashed_secret }
    }

    /// Where the lock records of a swap paid on this chain live: under the
    /// chain that sells.
    pub open spec fn spec_buy_lock_key(&self, hashed_secret: [u8; 32]) -> LockKey {
        LockKey { chain_id: self.peer_chain_id, adapter_id: self.peer_adapter_id, hashed_secret }
    }

    /// The order book that a buyer paying on this chain buys from.
    pub open spec fn spec_buy_market(&self) -> Market {
        Market {
            sell_chain_id: self.peer_chain_id,
            sell_asset_id: self.peer_asset_id,
            buy_chain_id: self.chain_id,
            buy_asset_id: self.asset_id,
        }
    }

    /// What the blob of an `AddToOrder` log means, if it is long enough.
    pub open spec fn spec_add_to_order(&self, data: Seq<u8>) -> Option<SwapEvent> {
        let at = self.layout.add_to_order;
        let order_id = field_at::<16>(data, at.order_id as int);
        let seller = field_at::<32>(data, at.seller as int);
        let price = u128_be_at(data, at.price as int);
        let foreign_address = field_at::<32>(data, at.foreign_address as int);
        let value = u128_be_at(data, at.value as int);
        if order_id is Some && seller is Some && price is Some && foreign_address is Some
            && value is Some {
            Some(
                SwapEvent::OrderAdded {
                    terms: self.spec_sell_terms(
                        order_id.unwrap(),
                        seller.unwrap(),
                        price.unwrap(),
                        foreign_address.unwrap(),
                    ),
                    value: value.unwrap(),
                },
            )
        } else {
            None
        }
    }

    /// What the blob of a `RemoveFromOrder` log means, if it is long enough:
    /// the order is the one whose identity its terms hash to.
    pub open spec fn spec_remove_from_order(&self, data: Seq<u8>) -> Option<SwapEvent> {
        let at = self.layout.remove_from_order;
        let seller = field_at::<32>(data, at.seller as int);
        let price = u128_be_at(data, at.price as int);
        let foreign_address = field_at::<32>(data, at.foreign_address as int);
        let value = u128_be_at(data, at.value as int);
        if seller is Some && price is Some && foreign_address is Some && value is Some {
            let order = self.spec_order_static(
                seller.unwrap(),
                price.unwrap(),
                foreign_address.unwrap(),
            );
            Some(
                SwapEvent::OrderRemoved {
                    terms: self.spec_sell_terms(
                        array_of::<16>(order.order_id()),
                        seller.unwrap(),
                        price.unwrap(),
                        foreign_address.unwrap(),
                    ),
                    value: value.unwrap(),
                },
            )
        } else {
            None
        }
    }

    /// What the blob of a `LockSell` log means, if it is long enough.
    pub open spec fn spec_lock_sell(&self, data: Seq<u8>) -> Option<SwapEvent> {
        let at = self.layout.lock_sell;
        let order_id = field_at::<16>(data, at.order_id as int);
        let hashed_secret = field_at::<32>(data, at.hashed_secret as int);
        let timeout = u128_be_at(data, at.timeout as int);
        let value = u128_be_at(data, at.value as int);
        if order_id is Some && hashed_secret is Some && timeout is Some && value is Some {
            Some(
                SwapEvent::SellLocked {
                    lock: self.spec_sell_lock_key(hashed_secret.unwrap()),
                    order_id: order_id.unwrap(),
                    value: value.unwrap(),
                    timeout: timeout.unwrap(),
                },
            )
        } else {
            None
        }
    }

    /// What the blob of an `UnlockSell` log means, if it is long enough: the
    /// lock is the one that the revealed secret opens.
    pub open spec fn spec_unlock_sell(&self, data: Seq<u8>) -> Option<SwapEvent> {
        let at = self.layout.unlock_sell;
        let order_id = field_at::<16>(data, at.order_id as int);
        let secret = field_at::<32>(data, at.secret as int);
        if order_id is Some && secret is Some {
            Some(
                SwapEvent::SellUnlocked {
                    lock: self.spec_sell_lock_key(hashed_secret_of(secret.unwrap())),
                    order_id: order_id.unwrap(),
                    secret: secret.unwrap(),
                },
            )
        } else {
            None
        }
    }

    /// What the blob of a `TimeoutSell` log means, if it is long enough.
    pub open spec fn spec_timeout_sell(&self, data: Seq<u8>) -> Option<SwapEvent> {
        let at = self.layout.timeout_sell;
        let order_id = field_at::<16>(data, at.order_id as int);
        let hashed_secret = field_at::<32>(data, at.hashed_secret as int);
        if order_id is Some && hashed_secret is Some {
            Some(
                SwapEvent::SellTimedOut {
                    lock: self.spec_sell_lock_key(hashed_secret.unwrap()),
                    order_id: order_id.unwrap(),
                },
            )
        } else {
            None
        }
    }

    /// What the blob of a `LockBuy` log means, if it is long enough.
    pub open spec fn spec_lock_buy(&self, data: Seq<u8>) -> Option<SwapEvent> {
        let at = self.layout.lock_buy;
        let buyer = field_at::<32>(data, at.buyer as int);
        let hashed_secret = field_at::<32>(data, at.hashed_secret as int);
        let timeout = u128_be_at(data, at.timeout as int);
        let value = u128_be_at(data, at.value as int);
        let order_id = field_at::<16>(data, at.order_id as int);
        let foreign_address = field_at::<32>(data, at.foreign_address as int);
        if buyer is Some && hashed_secret is Some && timeout is Some && value is Some
            && order_id is Some && foreign_address is Some {
            Some(
                SwapEvent::BuyLocked {
                    lock: self.spec_buy_lock_key(hashed_secret.unwrap()),
                    market: self.spec_buy_market(),
                    order_id: order_id.unwrap(),
                    value: value.unwrap(),
                    timeout: timeout.unwrap(),
                    buyer: buyer.unwrap(),
                    foreign_address: foreign_address.unwrap(),
                },
            )
        } else {
            None
        }
    }

    /// What the blob of an `UnlockBuy` log means, if it is long enough: the
    /// lock is the one that the revealed secret opens.
    pub open spec fn spec_unlock_buy(&self, data: Seq<u8>) -> Option<SwapEvent> {
        let at = self.layout.unlock_buy;
        let buyer = field_at::<32>(data, at.buyer as int);
        let secret = field_at::<32>(data, at.secret as int);
        if buyer is Some && secret is Some {
            Some(
                SwapEvent::BuyUnlocked {
                    lock: self.spec_buy_lock_key(hashed_secret_of(secret.unwrap())),
                    buyer: buyer.unwrap(),
                },
            )
        } else {
            None
        }
    }

    /// What the blob of a `TimeoutBuy` log means, if it is long enough.
    pub open spec fn spec_timeout_buy(&self, data: Seq<u8>) -> Option<SwapEvent> {
        let at = self.layout.timeout_buy;
        let buyer = field_at::<32>(data, at.buyer as int);
        let hashed_secret = field_at::<32>(data, at.hashed_secret as int);
        if buyer is Some && hashed_secret is Some {
            Some(
                SwapEvent::BuyTimedOut {
                    lock: self.spec_buy_lock_key(hashed_secret.unwrap()),
                    buyer: buyer.unwrap(),
                },
            )
        } else {
            None
        }
    }

    /// What a log means: the contract selects the side, the first topic the
    /// event, and the table of that event the fields.
    pub open spec fn spec_decode_log(
        &self,
        address: [u8; 20],
        topics: Seq<[u8; 32]>,
        data: Seq<u8>,
    ) -> Option<SwapEvent> {
        if topics.len() == 0 {
            None
        } else if address == self.sell_contract {
            if topics[0] == self.topics.add_to_order {
                self.spec_add_to_order(data)
            } else if topics[0] == self.topics.remove_from_order {
                self.spec_remove_from_order(data)
            } else if topics[0] == self.topics.lock_sell {
                self.spec_lock_sell(data)
            } else if topics[0] == self.topics.unlock_sell {
                self.spec_unlock_sell(data)
            } else if topics[0] == self.topics.timeout_sell {
                self.spec_timeout_sell(data)
            } else {
                None
            }
        } else if address == self.buy_contract {
            if topics[0] == self.topics.lock_buy {
                self.spec_lock_buy(data)
            } else if topics[0] == self.topics.unlock_buy {
                self.spec_unlock_buy(data)
            } else if topics[0] == self.topics.timeout_buy {
                self.spec_timeout_buy(data)
            } else {
                None
            }
        } else {
            None
        }
    }

    /// Makes the static record of an order sold through this deployment.
    #[verifier::when_used_as_spec(spec_order_static)]
    pub fn order_static(&self, seller: [u8; 32], price: u128, foreign_address: [u8; 32]) -> (order:
        OrderStatic)
        ensures
            order == self.spec_order_static(seller, price, foreign_address),
    {
        OrderStatic {
            seller,
            chain_id: self.peer_chain_id,
            adapter_id: self.peer_adapter_id,
            asset_id: self.peer_asset_id,
            price,
            foreign_address,
        }
    }

    /// Names an order sold through this deployment by its identity and its
    /// terms.
    #[verifier::when_used_as_spec(spec_sell_terms)]
    pub fn sell_terms(
        &self,
        order_id: [u8; 16],
        seller: [u8; 32],
        price: u128,
        foreign_address: [u8; 32],
    ) -> (terms: OrderTerms)
        ensures
            terms == self.spec_sell_terms(order_id, seller, price, foreign_address),
    {
        OrderTerms {
            sell_chain_id: self.chain_id,
            sell_adapter_id: self.adapter_id,
            sell_asset_id: self.asset_id,
            order_id,
            order: self.order_static(seller, price, foreign_address),
        }
    }

    /// Makes the key of the lock records of a swap sold on this chain.
    #[verifier::when_used_as_spec(spec_sell_lock_key)]
    pub fn sell_lock_key(&self, hashed_secret: [u8; 32]) -> (key: LockKey)
        ensures
            key == self.spec_sell_lock_key(hashed_secret),
    {
        LockKey { chain_id: self.chain_id, adapter_id: self.adapter_id, hashed_secret }
    }

    /// Makes the key of the lock records of a swap paid on this chain.
    #[verifier::when_used_as_spec(spec_buy_lock_key)]
    pub fn buy_lock_key(&self, hashed_secret: [u8; 32]) -> (key: LockKey)
        ensures
            key == self.spec_buy_lock_key(hashed_secret),
    {
        LockKey { chain_id: self.peer_chain_id, adapter_id: self.peer_adapter_id, hashed_secret }
    }

    /// Names the order book that a buyer paying on this chain buys from.
    #[verifier::when_used_as_spec(spec_buy_market)]
    pub fn buy_market(&self) -> (market: Market)
        ensures
            market == self.spec_buy_market(),
    {
        Market {
            sell_chain_id: self.peer_chain_id,
            sell_asset_id: self.peer_asset_id,
            buy_chain_id: self.chain_id,
            buy_asset_id: self.asset_id,
        }
    }

    /// Decodes the blob of an `AddToOrder` log.
    pub fn add_to_order(&self, data: &[u8]) -> (event: Option<SwapEvent>)
        ensures
            event == self.spec_add_to_order(data@),
    {
        let at = &self.layout.add_to_order;
        let order_id = read_field::<16>(data, at.order_id);
        let seller = read_field::<32>(data, at.seller);
        let price = read_u128_be(data, at.price);
        let foreign_address = read_field::<32>(data, at.foreign_address);
        let value = read_u128_be(data, at.value);
        match (order_id, seller, price, foreign_address, value) {
            (Some(order_id), Some(seller), Some(price), Some(foreign_address), Some(value)) => Some(
                SwapEvent::OrderAdded {
                    terms: self.sell_terms(order_id, seller, price, foreign_address),
                    value,
                },
            ),
            _ => None,
        }
    }

    /// Decodes the blob of a `RemoveFromOrder` log. The log names the order
    /// by its terms only; its identity is derived from them.
    pub fn remove_from_order(&self, data: &[u8]) -> (event: Option<SwapEvent>)
        ensures
            event == self.spec_remove_from_order(data@),
    {
        let at = &self.layout.remove_from_order;
        let seller = read_field::<32>(data, at.seller);
        let price = read_u128_be(data, at.price);
        let foreign_address = read_field::<32>(data, at.foreign_address);
        let value = read_u128_be(data, at.value);
        match (seller, price, foreign_address, value) {
            (Some(seller), Some(price), Some(foreign_address), Some(value)) => {
                let order_id = self.order_static(seller, price, foreign_address).get_order_id();
                proof {
                    lemma_array_of_view::<16>(order_id);
                }
                Some(
                    SwapEvent::OrderRemoved {
                        terms: self.sell_terms(order_id, seller, price, foreign_address),
                        value,
                    },
                )
            },
            _ => None,
        }
    }

    /// Decodes the blob of a `LockSell` log.
    pub fn lock_sell(&self, data: &[u8]) -> (event: Option<SwapEvent>)
        ensures
            event == self.spec_lock_sell(data@),
    {
        let at = &self.layout.lock_sell;
        let order_id = read_field::<16>(data, at.order_id);
        let hashed_secret = read_field::<32>(data, at.hashed_secret);
        let timeout = read_u128_be(data, at.timeout);
        let value = read_u128_be(data, at.value);
        match (order_id, hashed_secret, timeout, value) {
            (Some(order_id), Some(hashed_secret), Some(timeout), Some(value)) => Some(
                SwapEvent::SellLocked {
                    lock: self.sell_lock_key(hashed_secret),
                    order_id,
                    value,
                    timeout,
                },
            ),
            _ => None,
        }
    }

    /// Decodes the blob of an `UnlockSell` log and hashes the secret it
    /// reveals into the key of the lock.
    pub fn unlock_sell(&self, data: &[u8]) -> (event: Option<SwapEvent>)
        ensures
            event == self.spec_unlock_sell(data@),
    {
        let at = &self.layout.unlock_sell;
        let order_id = read_field::<16>(data, at.order_id);
        let secret = read_field::<32>(data, at.secret);
        match (order_id, secret) {
            (Some(order_id), Some(secret)) => Some(
                SwapEvent::SellUnlocked {
                    lock: self.sell_lock_key(hash_secret(&secret)),
                    order_id,
                    secret,
                },
            ),
            _ => None,
        }
    }

    /// Decodes the blob of a `TimeoutSell` log.
    pub fn timeout_sell(&self, data: &[u8]) -> (event: Option<SwapEvent>)
        ensures
            event == self.spec_timeout_sell(data@),
    {
        let at = &self.layout.timeout_sell;
        let order_id = read_field::<16>(data, at.order_id);
        let hashed_secret = read_field::<32>(data, at.hashed_secret);
        match (order_id, hashed_secret) {
            (Some(order_id), Some(hashed_secret)) => Some(
                SwapEvent::SellTimedOut {
                    lock: self.sell_lock_key(hashed_secret),
                    order_id,
                },
            ),
            _ => None,
        }
    }

    /// Decodes the blob of a `LockBuy` log.
    pub fn lock_buy(&self, data: &[u8]) -> (event: Option<SwapEvent>)
        ensures
            event == self.spec_lock_buy(data@),
    {
        let at = &self.layout.lock_buy;
        let buyer = read_field::<32>(data, at.buyer);
        let hashed_secret = read_field::<32>(data, at.hashed_secret);
        let timeout = read_u128_be(data, at.timeout);
        let value = read_u128_be(data, at.value);
        let order_id = read_field::<16>(data, at.order_id);
        let foreign_address = read_field::<32>(data, at.foreign_address);
        match (buyer, hashed_secret, timeout, value, order_id, foreign_address) {
            (
                Some(buyer),
                Some(hashed_secret),
                Some(timeout),
                Some(value),
                Some(order_id),
                Some(foreign_address),
            ) => Some(
                SwapEvent::BuyLocked {
                    lock: self.buy_lock_key(hashed_secret),
                    market: self.buy_market(),
                    order_id,
                    value,
                    timeout,
                    buyer,
                    foreign_address,
                },
            ),
            _ => None,
        }
    }

    /// Decodes the blob of an `UnlockBuy` log and hashes the secret it
    /// reveals into the key of the lock.
    pub fn unlock_buy(&self, data: &[u8]) -> (event: Option<SwapEvent>)
        ensures
            event == self.spec_unlock_buy(data@),
    {
        let at = &self.layout.unlock_buy;
        let buyer = read_field::<32>(data, at.buyer);
        let secret = read_field::<32>(data, at.secret);
        match (buyer, secret) {
            (Some(buyer), Some(secret)) => Some(
                SwapEvent::BuyUnlocked {
                    lock: self.buy_lock_key(hash_secret(&secret)),
                    buyer,
                },
            ),
            _ => None,
        }
    }

    /// Decodes the blob of a `TimeoutBuy` log.
    pub fn timeout_buy(&self, data: &[u8]) -> (event: Option<SwapEvent>)
        ensures
            event == self.spec_timeout_buy(data@),
    {
        let at = &self.layout.timeout_buy;
        let buyer = read_field::<32>(data, at.buyer);
        let hashed_secret = read_field::<32>(data, at.hashed_secret);
        match (buyer, hashed_secret) {
            (Some(buyer), Some(hashed_secret)) => Some(
                SwapEvent::BuyTimedOut {
                    lock: self.buy_lock_key(hashed_secret),
                    buyer,
                },
            ),
            _ => None,
        }
    }

    /// Turns one log into the canonical event it reports, or into nothing
    /// where the log is not one of this deployment's or cannot be read.
    pub fn decode_log(&self, address: &[u8; 20], topics: &Vec<[u8; 32]>, data: &Vec<u8>) -> (event:
        Option<SwapEvent>)
        ensures
            event == self.spec_decode_log(*address, topics@, data@),
    {
        if topics.len() == 0 {
            return None;
        }
        let topic = &topics[0];
        let blob = data.as_slice();
        if same_bytes(address, &self.sell_contract) {
            if same_bytes(topic, &self.topics.add_to_order) {
                self.add_to_order(blob)
            } else if same_bytes(topic, &self.topics.remove_from_order) {
                self.remove_from_order(blob)
            } else if same_bytes(topic, &self.topics.lock_sell) {
                self.lock_sell(blob)
            } else if same_bytes(topic, &self.topics.unlock_sell) {
                self.unlock_sell(blob)
            } else if same_bytes(topic, &self.topics.timeout_sell) {
                self.timeout_sell(blob)
            } else {
                None
            }
        } else if same_bytes(address, &self.buy_contract) {
            if same_bytes(topic, &self.topics.lock_buy) {
                self.lock_buy(blob)
            } else if same_bytes(topic, &self.topics.unlock_buy) {
                self.unlock_buy(blob)
            } else if same_bytes(topic, &self.topics.timeout_buy) {
                self.timeout_buy(blob)
            } else {
                None
            }
        } else {
            None
        }
    }
}

} // verus!
