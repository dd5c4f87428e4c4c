//! The canonical events: what every chain adapter turns its own wire data
//! into, and the only thing the index and the lock tracker ever see.

use vstd::prelude::*;
use crate::bytes::{array_of, lemma_array_of_view};
use crate::hashing::{keccak_256, keccak_256_digest};
use crate::shared::{LockKey, OrderKey, OrderListKey, OrderStatic};

verus! {

/// An asset pair: what is sold where, and what is paid where.
#[derive(Clone, Copy, Debug, PartialEq, Eq)]
pub struct Market {
    pub sell_chain_id: u32,
    pub sell_asset_id: [u8; 8],
    pub buy_chain_id: u32,
    pub buy_asset_id: [u8; 8],
}

/// An order as an event names it: where it is sold, its identity and its
/// static terms.
#[derive(Clone, Copy, Debug, PartialEq, Eq)]
pub struct OrderTerms {
    pub sell_chain_id: u32,
    pub sell_adapter_id: u32,
    pub sell_asset_id: [u8; 8],
    pub order_id: [u8; 16],
    pub order: OrderStatic,
}

/// A change to an order or to a lock, as some chain reported it.
#[derive(Clone, Copy, Debug, PartialEq, Eq)]
pub enum SwapEvent {
    /// Liquidity was added to the order.
    OrderAdded { terms: OrderTerms, value: u128 },
    /// Liquidity was taken out of the order.
    OrderRemoved { terms: OrderTerms, value: u128 },
    /// The chain was asked what the order holds now; `None` when it no
    /// longer knows the order.
    OrderRefreshed { terms: OrderTerms, found: Option<u128> },
    SellLocked { lock: LockKey, order_id: [u8; 16], value: u128, timeout: u128 },
    SellUnlocked { lock: LockKey, order_id: [u8; 16], secret: [u8; 32] },
    SellTimedOut { lock: LockKey, order_id: [u8; 16] },
    BuyLocked {
        lock: LockKey,
        market: Market,
        order_id: [u8; 16],
        value: u128,
        timeout: u128,
        buyer: [u8; 32],
        foreign_address: [u8; 32],
    },
    BuyUnlocked { lock: LockKey, buyer: [u8; 32] },
    BuyTimedOut { lock: LockKey, buyer: [u8; 32] },
}

impl OrderTerms {
    /// Where the records of the order live.
    pub open spec fn spec_order_key(&self) -> OrderKey {
        OrderKey {
            chain_id: self.sell_chain_id,
            adapter_id: self.sell_adapter_id,
            order_id: self.order_id,
        }
    }

    /// Where the records of the order live.
    #[verifier::when_used_as_spec(spec_order_key)]
    pub fn order_key(&self) -> (key: OrderKey)
        ensures
            key == self.spec_order_key(),
    {
        OrderKey {
            chain_id: self.sell_chain_id,
            adapter_id: self.sell_adapter_id,
            order_id: self.order_id,
        }
    }

    /// The order book that lists the order.
    pub open spec fn spec_market(&self) -> Market {
        Market {
            sell_chain_id: self.sell_chain_id,
            sell_asset_id: self.sell_asset_id,
            buy_chain_id: self.order.chain_id,
            buy_asset_id: self.order.asset_id,
        }
    }

    /// The order book that lists the order.
    #[verifier::when_used_as_spec(spec_market)]
    pub fn market(&self) -> (market: Market)
        ensures
            market == self.spec_market(),
    {
        Market {
            sell_chain_id: self.sell_chain_id,
            sell_asset_id: self.sell_asset_id,
            buy_chain_id: self.order.chain_id,
            buy_asset_id: self.order.asset_id,
        }
    }

    /// The sort position of the order while it holds `value`.
    pub open spec fn spec_list_key(&self, value: u128) -> OrderListKey {
        OrderListKey {
            sell_chain_id: self.sell_chain_id,
            sell_asset_id: self.sell_asset_id,
            buy_chain_id: self.order.chain_id,
            buy_asset_id: self.order.asset_id,
            value,
            sell_adapter_id: self.sell_adapter_id,
            order_id: self.order_id,
        }
    }

    /// The sort position of the order while it holds `value`.
    #[verifier::when_used_as_spec(spec_list_key)]
    pub fn list_key(&self, value: u128) -> (key: OrderListKey)
        ensures
            key == self.spec_list_key(value),
    {
        OrderListKey {
            sell_chain_id: self.sell_chain_id,
            sell_asset_id: self.sell_asset_id,
            buy_chain_id: self.order.chain_id,
            buy_asset_id: self.order.asset_id,
            value,
            sell_adapter_id: self.sell_adapter_id,
            order_id: self.order_id,
        }
    }
}

/// The commitment that `secret` opens.
pub open spec fn hashed_secret_of(secret: [u8; 32]) -> [u8; 32] {
    array_of::<32>(keccak_256_digest(secret@))
}

/// Hashes a revealed secret into the commitment it opens. Both chain
/// families commit with Keccak-256.
pub fn hash_secret(secret: &[u8; 32]) -> (hashed: [u8; 32])
    ensures
        hashed == hashed_secret_of(*secret),
        hashed@ == keccak_256_digest(secret@),
{
    let hashed = keccak_256(secret.as_slice());
    proof {
        lemma_array_of_view::<32>(hashed);
    }
    hashed
}

} // verus!
