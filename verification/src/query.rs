//! The read side of the index: what a request asks for, and the response
//! made from what the store holds.
//!
//! A request names an order book by its asset pair, or one order by its key.
//! The caller walks the store forward from the key that `scan_start` or
//! `lock_scan_start` gives, hands over the keys it met, and gets back the
//! entries that belong to the request: the walk is over where the first key
//! of another order book, or of another order, appears. Identifiers enter
//! and leave as hexadecimal text of their fixed width.

use vstd::prelude::*;
use crate::bytes::array_of;
use crate::events::Market;
use crate::hexstr::{decode, encode, hex_bytes, hex_text, is_hex_text};
use crate::index::Notice;
use crate::shared::{
    same_bytes,
    take_array,
    BuyLock,
    LockKey,
    LockState,
    OrderKey,
    OrderListKey,
    OrderLockListKey,
    OrderStatic,
    RequestMessage,
    SellLock,
};
use crate::tracker::ConsistencyError;

verus! {

/// A request, its identifiers read.
#[derive(Clone, Copy, Debug, PartialEq, Eq)]
pub enum Query {
    OrderBook { market: Market },
    Order { key: OrderKey },
}

/// Why a request cannot be answered.
#[derive(Clone, Copy, Debug, PartialEq, Eq)]
pub enum RequestError {
    /// An asset identifier is not the hexadecimal text of 8 bytes.
    BadAssetId,
    /// The order identifier is not the hexadecimal text of 16 bytes.
    BadOrderId,
}

/// An order as a response shows it.
#[derive(Clone, Debug, PartialEq, Eq)]
pub struct JsonOrder {
    pub order_id: String,
    pub seller: String,
    /// The buying chain.
    pub chain_id: u32,
    /// The buying adapter.
    pub adapter_id: u32,
    /// The buying asset.
    pub asset_id: String,
    pub price: u128,
    pub foreign_address: String,
    pub value: u128,
}

/// The two locks of one swap as a response shows them.
#[derive(Clone, Debug, PartialEq, Eq)]
pub struct JsonLock {
    pub buyer: String,
    pub hashed_secret: String,
    pub buy_lock_value: u128,
    pub buy_lock_state: String,
    pub buy_lock_timeout: u128,
    pub buy_lock_foreign_address: String,
    pub sell_lock_state: String,
    pub sell_lock_timeout: u128,
    pub secret: Option<String>,
}

/// The answer to a request.
#[derive(Clone, Debug, PartialEq, Eq)]
pub enum ResponseMessage {
    OrderBook {
        sell_chain_id: u32,
        sell_asset_id: String,
        buy_chain_id: u32,
        buy_asset_id: String,
        order_book: Vec<JsonOrder>,
    },
    Order { sell_chain_id: u32, sell_adapter_id: u32, order: JsonOrder, locks: Vec<JsonLock> },
}

/// A lock-list entry together with what the store holds for its two locks.
#[derive(Clone, Copy, Debug, PartialEq, Eq)]
pub struct LockRecords {
    pub entry: OrderLockListKey,
    pub buy_lock: Option<BuyLock>,
    pub sell_lock: Option<SellLock>,
}

/// An order-book entry together with the static record that the store holds
/// for its order.
#[derive(Clone, Copy, Debug, PartialEq, Eq)]
pub struct ListedOrder {
    pub entry: OrderListKey,
    pub order: Option<OrderStatic>,
}

/// A request as text of characters.
pub enum RequestView {
    GetOrderBook {
        sell_chain_id: u32,
        sell_asset_id: Seq<char>,
        buy_chain_id: u32,
        buy_asset_id: Seq<char>,
    },
    GetOrder { sell_chain_id: u32, sell_adapter_id: u32, order_id: Seq<char> },
}

impl View for RequestMessage {
    type V = RequestView;

    open spec fn view(&self) -> RequestView {
        match *self {
            RequestMessage::GetOrderBook {
                sell_chain_id,
                sell_asset_id,
                buy_chain_id,
                buy_asset_id,
            } => RequestView::GetOrderBook {
                sell_chain_id,
                sell_asset_id: sell_asset_id@,
                buy_chain_id,
                buy_asset_id: buy_asset_id@,
            },
            RequestMessage::GetOrder {
                sell_chain_id,
                sell_adapter_id,
                order_id,
            } => RequestView::GetOrder { sell_chain_id, sell_adapter_id, order_id: order_id@ },
        }
    }
}

/// The identifier of `N` bytes that `text` spells, if it spells one.
pub open spec fn id_of_hex<const N: usize>(text: Seq<char>) -> Option<[u8; N]> {
    if is_hex_text(text) && text.len() == 2 * N {
        Some(array_of::<N>(hex_bytes(text)))
    } else {
        None
    }
}

/// Reads an identifier of `N` bytes from its hexadecimal text, upper or
/// lower case; `None` where the text is not hexadecimal or of another width.
pub fn id_from_hex<const N: usize>(text: &str) -> (id: Option<[u8; N]>)
    ensures
        id == id_of_hex::<N>(text@),
{
    match decode(text) {
        Ok(bytes) => {
            if bytes.len() == N {
                assert(bytes@.subrange(0, N as int) =~= bytes@);
                Some(take_array::<N>(bytes.as_slice(), 0))
            } else {
                None
            }
        },
        Err(_) => None,
    }
}

/// What a request asks for.
pub open spec fn spec_parse_request(request: RequestView) -> Result<Query, RequestError> {
    match request {
        RequestView::GetOrderBook { sell_chain_id, sell_asset_id, buy_chain_id, buy_asset_id } => {
            let sell = id_of_hex::<8>(sell_asset_id);
            let buy = id_of_hex::<8>(buy_asset_id);
            if sell is Some && buy is Some {
                Ok(
                    Query::OrderBook {
                        market: Market {
                            sell_chain_id,
                            sell_asset_id: sell.unwrap(),
                            buy_chain_id,
                            buy_asset_id: buy.unwrap(),
                        },
                    },
                )
            } else {
                Err(RequestError::BadAssetId)
            }
        },
        RequestView::GetOrder { sell_chain_id, sell_adapter_id, order_id } => {
            let id = id_of_hex::<16>(order_id);
            if id is Some {
                Ok(
                    Query::Order {
                        key: OrderKey {
                            chain_id: sell_chain_id,
                            adapter_id: sell_adapter_id,
                            order_id: id.unwrap(),
                        },
                    },
                )
            } else {
                Err(RequestError::BadOrderId)
            }
        },
    }
}

/// Reads the identifiers of a request.
pub fn parse_request(request: &RequestMessage) -> (query: Result<Query, RequestError>)
    ensures
        query == spec_parse_request(request@),
{
    match request {
        RequestMessage::GetOrderBook { sell_chain_id, sell_asset_id, buy_chain_id, buy_asset_id } => {
            let sell = id_from_hex::<8>(sell_asset_id.as_str());
            let buy = id_from_hex::<8>(buy_asset_id.as_str());
            match (sell, buy) {
                (Some(sell), Some(buy)) => Ok(
                    Query::OrderBook {
                        market: Market {
                            sell_chain_id: *sell_chain_id,
                            sell_asset_id: sell,
                            buy_chain_id: *buy_chain_id,
                            buy_asset_id: buy,
                        },
                    },
                ),
                _ => Err(RequestError::BadAssetId),
            }
        },
        RequestMessage::GetOrder { sell_chain_id, sell_adapter_id, order_id } => {
            match id_from_hex::<16>(order_id.as_str()) {
                Some(id) => Ok(
                    Query::Order {
                        key: OrderKey {
                            chain_id: *sell_chain_id,
                            adapter_id: *sell_adapter_id,
                            order_id: id,
                        },
                    },
                ),
                None => Err(RequestError::BadOrderId),
            }
        },
    }
}

impl Notice {
    /// The request that fetches what the notice says has changed.
    pub open spec fn request(self) -> RequestView {
        match self {
            Notice::OrderBook { market } => RequestView::GetOrderBook {
                sell_chain_id: market.sell_chain_id,
                sell_asset_id: hex_text(market.sell_asset_id@),
                buy_chain_id: market.buy_chain_id,
                buy_asset_id: hex_text(market.buy_asset_id@),
            },
            Notice::Order { key } => RequestView::GetOrder {
                sell_chain_id: key.chain_id,
                sell_adapter_id: key.adapter_id,
                order_id: hex_text(key.order_id@),
            },
        }
    }

    /// Writes the notice as the request that a watcher would send to see
    /// the change.
    pub fn to_request(&self) -> (request: RequestMessage)
        ensures
            request@ == self.request(),
    {
        match self {
            Notice::OrderBook { market } => RequestMessage::GetOrderBook {
                sell_chain_id: market.sell_chain_id,
                sell_asset_id: encode(market.sell_asset_id.as_slice()),
                buy_chain_id: market.buy_chain_id,
                buy_asset_id: encode(market.buy_asset_id.as_slice()),
            },
            Notice::Order { key } => RequestMessage::GetOrder {
                sell_chain_id: key.chain_id,
                sell_adapter_id: key.adapter_id,
                order_id: encode(key.order_id.as_slice()),
            },
        }
    }
}

impl Market {
    /// The least key that an entry of this order book can have.
    pub open spec fn first_key(self) -> OrderListKey {
        OrderListKey {
            sell_chain_id: self.sell_chain_id,
            sell_asset_id: self.sell_asset_id,
            buy_chain_id: self.buy_chain_id,
            buy_asset_id: self.buy_asset_id,
            value: 0,
            sell_adapter_id: 0,
            order_id: array_of::<16>(Seq::new(16, |i: int| 0u8)),
        }
    }

    /// Whether `entry` stands in this order book.
    pub open spec fn lists(self, entry: OrderListKey) -> bool {
        &&& entry.sell_chain_id == self.sell_chain_id
        &&& entry.sell_asset_id == self.sell_asset_id
        &&& entry.buy_chain_id == self.buy_chain_id
        &&& entry.buy_asset_id == self.buy_asset_id
    }

    /// The entry that `key` spells, if it is a key of this order book.
    pub open spec fn spec_entry(self, key: Seq<u8>) -> Option<OrderListKey> {
        if key.len() == 60 && self.lists(OrderListKey::from_bytes(key)) {
            Some(OrderListKey::from_bytes(key))
        } else {
            None
        }
    }

    /// The key from which a forward walk of `order_list` meets this order
    /// book, lowest value first.
    pub fn scan_start(&self) -> (key: Vec<u8>)
        ensures
            key@ == self.first_key().bytes(),
    {
        let order_id = [0u8;16];
        proof {
            assert(order_id@ =~= Seq::new(16, |i: int| 0u8));
            crate::bytes::lemma_array_of_view::<16>(order_id);
        }
        let first = OrderListKey {
            sell_chain_id: self.sell_chain_id,
            sell_asset_id: self.sell_asset_id,
            buy_chain_id: self.buy_chain_id,
            buy_asset_id: self.buy_asset_id,
            value: 0,
            sell_adapter_id: 0,
            order_id,
        };
        first.serialize()
    }

    /// Reads a key met on the walk; `None` where it is not a key of this
    /// order book, which ends the walk.
    pub fn entry(&self, key: &Vec<u8>) -> (entry: Option<OrderListKey>)
        ensures
            entry == self.spec_entry(key@),
    {
        if key.len() != 60 {
            return None;
        }
        let entry = OrderListKey::unserialize(key.clone());
        if entry.sell_chain_id == self.sell_chain_id && same_bytes(
            &entry.sell_asset_id,
            &self.sell_asset_id,
        ) && entry.buy_chain_id == self.buy_chain_id && same_bytes(
            &entry.buy_asset_id,
            &self.buy_asset_id,
        ) {
            Some(entry)
        } else {
            None
        }
    }
}

/// How many of `keys`, from the first on, are keys of the order book.
pub open spec fn book_len(market: Market, keys: Seq<Seq<u8>>) -> nat
    decreases keys.len(),
{
    if keys.len() == 0 || market.spec_entry(keys[0]) is None {
        0
    } else {
        1 + book_len(market, keys.drop_first())
    }
}

/// The entries of the order book among `keys`: those before the first key
/// that belongs elsewhere, in the order of the walk.
pub open spec fn book_entries(market: Market, keys: Seq<Seq<u8>>) -> Seq<OrderListKey> {
    Seq::new(book_len(market, keys), |i: int| OrderListKey::from_bytes(keys[i]))
}

/// The first `n` keys belong to the order book, and the walk ends there.
pub proof fn lemma_book_len(market: Market, keys: Seq<Seq<u8>>, n: nat)
    requires
        n <= keys.len(),
        forall|i: int| 0 <= i < n ==> market.spec_entry(#[trigger] keys[i]) is Some,
        n == keys.len() || market.spec_entry(keys[n as int]) is None,
    ensures
        book_len(market, keys) == n,
    decreases n,
{
    if n > 0 {
        let rest = keys.drop_first();
        assert forall|i: int| 0 <= i < n - 1 implies market.spec_entry(#[trigger] rest[i]) is Some by {
            assert(rest[i] == keys[i + 1]);
        }
        lemma_book_len(market, rest, (n - 1) as nat);
    }
}

/// Picks the entries of one order book out of the keys that a forward walk
/// from `scan_start` met.
pub fn order_book_entries(market: &Market, keys: &Vec<Vec<u8>>) -> (entries: Vec<OrderListKey>)
    ensures
        entries@ == book_entries(*market, keys.deep_view()),
{
    let ghost all = keys.deep_view();
    let mut entries: Vec<OrderListKey> = Vec::new();
    let mut i: usize = 0;
    while i < keys.len()
        invariant
            i <= keys.len(),
            all == keys.deep_view(),
            entries@.len() == i,
            forall|j: int| 0 <= j < i ==> market.spec_entry(#[trigger] all[j]) is Some,
            forall|j: int| 0 <= j < i ==> entries@[j] == OrderListKey::from_bytes(all[j]),
        decreases keys.len() - i,
    {
        assert(all[i as int] == keys[i as int]@);
        match market.entry(&keys[i]) {
            Some(entry) => {
                entries.push(entry);
            },
            None => {
                proof {
                    lemma_book_len(*market, all, i as nat);
                    assert(entries@ =~= book_entries(*market, all));
                }
                return entries;
            },
        }
        i += 1;
    }
    proof {
        lemma_book_len(*market, all, i as nat);
        assert(entries@ =~= book_entries(*market, all));
    }
    entries
}

impl OrderKey {
    /// The least key that a lock-list entry of this order can have.
    pub open spec fn first_lock_key(self) -> OrderLockListKey {
        OrderLockListKey {
            chain_id: self.chain_id,
            adapter_id: self.adapter_id,
            order_id: self.order_id,
            value: 0,
            hashed_secret: array_of::<32>(Seq::new(32, |i: int| 0u8)),
        }
    }

    /// The lock-list entry that `key` spells, if it is one of this order.
    pub open spec fn spec_lock_entry(self, key: Seq<u8>) -> Option<OrderLockListKey> {
        if key.len() == 72 && OrderLockListKey::from_bytes(key).order_key() == self {
            Some(OrderLockListKey::from_bytes(key))
        } else {
            None
        }
    }

    /// The key from which a forward walk of `order_lock_list` meets the
    /// locks of this order.
    pub fn lock_scan_start(&self) -> (key: Vec<u8>)
        ensures
            key@ == self.first_lock_key().bytes(),
    {
        let hashed_secret = [0u8;32];
        proof {
            assert(hashed_secret@ =~= Seq::new(32, |i: int| 0u8));
            crate::bytes::lemma_array_of_view::<32>(hashed_secret);
        }
        let first = OrderLockListKey {
            chain_id: self.chain_id,
            adapter_id: self.adapter_id,
            order_id: self.order_id,
            value: 0,
            hashed_secret,
        };
        first.serialize()
    }

    /// Reads a key met on the walk; `None` where it is not a key of this
    /// order, which ends the walk.
    pub fn lock_entry(&self, key: &Vec<u8>) -> (entry: Option<OrderLockListKey>)
        ensures
            entry == self.spec_lock_entry(key@),
    {
        if key.len() != 72 {
            return None;
        }
        let entry = OrderLockListKey::unserialize(key.clone());
        if entry.chain_id == self.chain_id && entry.adapter_id == self.adapter_id && same_bytes(
            &entry.order_id,
            &self.order_id,
        ) {
            Some(entry)
        } else {
            None
        }
    }
}

/// How many of `keys`, from the first on, are lock-list keys of the order.
pub open spec fn lock_list_len(order: OrderKey, keys: Seq<Seq<u8>>) -> nat
    decreases keys.len(),
{
    if keys.len() == 0 || order.spec_lock_entry(keys[0]) is None {
        0
    } else {
        1 + lock_list_len(order, keys.drop_first())
    }
}

/// The lock-list entries of the order among `keys`: those before the first
/// key that belongs to another order, in the order of the walk.
pub open spec fn lock_list_entries(order: OrderKey, keys: Seq<Seq<u8>>) -> Seq<OrderLockListKey> {
    Seq::new(lock_list_len(order, keys), |i: int| OrderLockListKey::from_bytes(keys[i]))
}

/// The first `n` keys belong to the order, and the walk ends there.
pub proof fn lemma_lock_list_len(order: OrderKey, keys: Seq<Seq<u8>>, n: nat)
    requires
        n <= keys.len(),
        forall|i: int| 0 <= i < n ==> order.spec_lock_entry(#[trigger] keys[i]) is Some,
        n == keys.len() || order.spec_lock_entry(keys[n as int]) is None,
    ensures
        lock_list_len(order, keys) == n,
    decreases n,
{
    if n > 0 {
        let rest = keys.drop_first();
        assert forall|i: int| 0 <= i < n - 1 implies order.spec_lock_entry(#[trigger] rest[i]) is Some by {
            assert(rest[i] == keys[i + 1]);
        }
        lemma_lock_list_len(order, rest, (n - 1) as nat);
    }
}

/// Picks the lock-list entries of one order out of the keys that a forward
/// walk from `lock_scan_start` met.
pub fn order_lock_entries(order: &OrderKey, keys: &Vec<Vec<u8>>) -> (entries: Vec<OrderLockListKey>)
    ensures
        entries@ == lock_list_entries(*order, keys.deep_view()),
{
    let ghost all = keys.deep_view();
    let mut entries: Vec<OrderLockListKey> = Vec::new();
    let mut i: usize = 0;
    while i < keys.len()
        invariant
            i <= keys.len(),
            all == keys.deep_view(),
            entries@.len() == i,
            forall|j: int| 0 <= j < i ==> order.spec_lock_entry(#[trigger] all[j]) is Some,
            forall|j: int| 0 <= j < i ==> entries@[j] == OrderLockListKey::from_bytes(all[j]),
        decreases keys.len() - i,
    {
        assert(all[i as int] == keys[i as int]@);
        match order.lock_entry(&keys[i]) {
            Some(entry) => {
                entries.push(entry);
            },
            None => {
                proof {
                    lemma_lock_list_len(*order, all, i as nat);
                    assert(entries@ =~= lock_list_entries(*order, all));
                }
                return entries;
            },
        }
        i += 1;
    }
    proof {
        lemma_lock_list_len(*order, all, i as nat);
        assert(entries@ =~= lock_list_entries(*order, all));
    }
    entries
}

impl OrderLockListKey {
    /// Where the two lock records of the entry live.
    pub fn records_key(&self) -> (key: LockKey)
        ensures
            key == self.lock_key(),
    {
        LockKey {
            chain_id: self.chain_id,
            adapter_id: self.adapter_id,
            hashed_secret: self.hashed_secret,
        }
    }
}

impl OrderListKey {
    /// Where the records of the listed order live.
    pub fn records_key(&self) -> (key: OrderKey)
        ensures
            key == self.order_key(),
    {
        OrderKey {
            chain_id: self.sell_chain_id,
            adapter_id: self.sell_adapter_id,
            order_id: self.order_id,
        }
    }
}

impl JsonOrder {
    /// Whether this is the order with the given identity, terms and value,
    /// identifiers in lowercase hexadecimal.
    pub open spec fn shows(self, order_id: [u8; 16], order: OrderStatic, value: u128) -> bool {
        &&& self.order_id@ == hex_text(order_id@)
        &&& self.seller@ == hex_text(order.seller@)
        &&& self.chain_id == order.chain_id
        &&& self.adapter_id == order.adapter_id
        &&& self.asset_id@ == hex_text(order.asset_id@)
        &&& self.price == order.price
        &&& self.foreign_address@ == hex_text(order.foreign_address@)
        &&& self.value == value
    }

    /// Writes an order for a response.
    pub fn new(order_id: &[u8; 16], order: &OrderStatic, value: u128) -> (shown: JsonOrder)
        ensures
            shown.shows(*order_id, *order, value),
    {
        JsonOrder {
            order_id: encode(order_id.as_slice()),
            seller: encode(order.seller.as_slice()),
            chain_id: order.chain_id,
            adapter_id: order.adapter_id,
            asset_id: encode(order.asset_id.as_slice()),
            price: order.price,
            foreign_address: encode(order.foreign_address.as_slice()),
            value,
        }
    }
}

impl JsonLock {
    /// Whether this is the swap filed under `entry`, with buy lock `buy`
    /// and sell lock `sell`; a sell lock that is not on record shows as not
    /// locked.
    pub open spec fn shows(self, entry: OrderLockListKey, buy: BuyLock, sell: Option<SellLock>) -> bool {
        let sold = if sell is Some {
            sell.unwrap()
        } else {
            SellLock::unseen()
        };
        &&& self.buyer@ == hex_text(buy.buyer@)
        &&& self.hashed_secret@ == hex_text(entry.hashed_secret@)
        &&& self.buy_lock_value == buy.value
        &&& self.buy_lock_state@ == buy.state.name()
        &&& self.buy_lock_timeout == buy.timeout
        &&& self.buy_lock_foreign_address@ == hex_text(buy.foreign_address@)
        &&& self.sell_lock_state@ == sold.state.name()
        &&& self.sell_lock_timeout == sold.timeout
        &&& sold.secret is Some <==> self.secret is Some
        &&& sold.secret matches Some(secret) ==> self.secret.unwrap()@ == hex_text(secret@)
    }

    /// Writes the two locks of a swap for a response.
    pub fn new(entry: &OrderLockListKey, buy: &BuyLock, sell: Option<SellLock>) -> (shown: JsonLock)
        ensures
            shown.shows(*entry, *buy, sell),
    {
        let sold = match sell {
            Some(lock) => lock,
            None => SellLock { state: LockState::NotLocked, timeout: 0, secret: None },
        };
        JsonLock {
            buyer: encode(buy.buyer.as_slice()),
            hashed_secret: encode(entry.hashed_secret.as_slice()),
            buy_lock_value: buy.value,
            buy_lock_state: buy.state.to_string(),
            buy_lock_timeout: buy.timeout,
            buy_lock_foreign_address: encode(buy.foreign_address.as_slice()),
            sell_lock_state: sold.state.to_string(),
            sell_lock_timeout: sold.timeout,
            secret: match sold.secret {
                Some(secret) => Some(encode(secret.as_slice())),
                None => None,
            },
        }
    }
}

/// Whether `response` is the order book of `market` with exactly the orders
/// of `listed`, in their order.
pub open spec fn is_order_book(response: ResponseMessage, market: Market, listed: Seq<ListedOrder>) -> bool {
    &&& response matches ResponseMessage::OrderBook {
        sell_chain_id,
        sell_asset_id,
        buy_chain_id,
        buy_asset_id,
        order_book,
    }
    &&& sell_chain_id == market.sell_chain_id
    &&& sell_asset_id@ == hex_text(market.sell_asset_id@)
    &&& buy_chain_id == market.buy_chain_id
    &&& buy_asset_id@ == hex_text(market.buy_asset_id@)
    &&& order_book@.len() == listed.len()
    &&& forall|i: int| 0 <= i < listed.len() ==> (#[trigger] listed[i]).order is Some
    &&& forall|i: int|
        0 <= i < listed.len() ==> (#[trigger] order_book@[i]).shows(
            listed[i].entry.order_id,
            listed[i].order.unwrap(),
            listed[i].entry.value,
        )
}

/// Makes the response to an order-book request from the entries that the
/// walk met and the static record that the store holds for each. An entry
/// whose order has no static record makes the request fail.
pub fn order_book_response(market: &Market, listed: &Vec<ListedOrder>) -> (response: Result<
    ResponseMessage,
    ConsistencyError,
>)
    ensures
        response is Ok <==> forall|i: int| 0 <= i < listed@.len() ==> (#[trigger] listed@[i]).order is Some,
        response matches Ok(book) ==> is_order_book(book, *market, listed@),
        response matches Err(e) ==> e == ConsistencyError::UnknownOrder,
{
    let mut order_book: Vec<JsonOrder> = Vec::new();
    let mut i: usize = 0;
    while i < listed.len()
        invariant
            i <= listed.len(),
            order_book@.len() == i,
            forall|j: int| 0 <= j < i ==> (#[trigger] listed@[j]).order is Some,
            forall|j: int|
                0 <= j < i ==> (#[trigger] order_book@[j]).shows(
                    listed@[j].entry.order_id,
                    listed@[j].order.unwrap(),
                    listed@[j].entry.value,
                ),
        decreases listed.len() - i,
    {
        let item = &listed[i];
        match &item.order {
            Some(order) => {
                let shown = JsonOrder::new(&item.entry.order_id, order, item.entry.value);
                let ghost before = order_book@;
                order_book.push(shown);
                assert forall|j: int| 0 <= j < i + 1 implies (#[trigger] order_book@[j]).shows(
                    listed@[j].entry.order_id,
                    listed@[j].order.unwrap(),
                    listed@[j].entry.value,
                ) by {
                    if j < i {
                        assert(order_book@[j] == before[j]);
                    }
                }
            },
            None => {
                return Err(ConsistencyError::UnknownOrder);
            },
        }
        i += 1;
    }
    Ok(
        ResponseMessage::OrderBook {
            sell_chain_id: market.sell_chain_id,
            sell_asset_id: encode(market.sell_asset_id.as_slice()),
            buy_chain_id: market.buy_chain_id,
            buy_asset_id: encode(market.buy_asset_id.as_slice()),
            order_book,
        },
    )
}

/// Whether `response` shows the order under `key` with its terms, its value
/// and exactly the swaps of `swaps`, in their order.
pub open spec fn is_order(
    response: ResponseMessage,
    key: OrderKey,
    value: u128,
    order: OrderStatic,
    swaps: Seq<LockRecords>,
) -> bool {
    &&& response matches ResponseMessage::Order { sell_chain_id, sell_adapter_id, order: shown, locks }
    &&& sell_chain_id == key.chain_id
    &&& sell_adapter_id == key.adapter_id
    &&& shown.shows(key.order_id, order, value)
    &&& locks@.len() == swaps.len()
    &&& forall|i: int| 0 <= i < swaps.len() ==> (#[trigger] swaps[i]).buy_lock is Some
    &&& forall|i: int|
        0 <= i < swaps.len() ==> (#[trigger] locks@[i]).shows(
            swaps[i].entry,
            swaps[i].buy_lock.unwrap(),
            swaps[i].sell_lock,
        )
}

/// What the request for an order is owed, given what the store holds.
pub open spec fn order_answer(
    value: Option<u128>,
    order: Option<OrderStatic>,
    swaps: Seq<LockRecords>,
) -> Result<bool, ConsistencyError> {
    if value is None {
        Ok(false)
    } else if order is None {
        Err(ConsistencyError::UnknownOrder)
    } else if exists|i: int| 0 <= i < swaps.len() && (#[trigger] swaps[i]).buy_lock is None {
        Err(ConsistencyError::MissingBuyLock)
    } else {
        Ok(true)
    }
}

/// Makes the response to a request for one order. An order that holds no
/// value has no response: the answer is `None`. An order that holds a value
/// but has no static record, or a swap filed under it whose buy lock is not
/// on record, makes the request fail.
pub fn order_response(
    key: &OrderKey,
    value: Option<u128>,
    order: Option<OrderStatic>,
    swaps: &Vec<LockRecords>,
) -> (response: Result<Option<ResponseMessage>, ConsistencyError>)
    ensures
        match order_answer(value, order, swaps@) {
            Ok(true) => response matches Ok(Some(shown)) && is_order(
                shown,
                *key,
                value.unwrap(),
                order.unwrap(),
                swaps@,
            ),
            Ok(false) => response == Ok::<Option<ResponseMessage>, ConsistencyError>(None),
            Err(e) => response == Err::<Option<ResponseMessage>, ConsistencyError>(e),
        },
{
    let held = match value {
        Some(held) => held,
        None => {
            return Ok(None);
        },
    };
    let terms = match order {
        Some(terms) => terms,
        None => {
            return Err(ConsistencyError::UnknownOrder);
        },
    };
    let mut locks: Vec<JsonLock> = Vec::new();
    let mut i: usize = 0;
    while i < swaps.len()
        invariant
            i <= swaps.len(),
            value == Some(held),
            order == Some(terms),
            locks@.len() == i,
            forall|j: int| 0 <= j < i ==> (#[trigger] swaps@[j]).buy_lock is Some,
            forall|j: int|
                0 <= j < i ==> (#[trigger] locks@[j]).shows(
                    swaps@[j].entry,
                    swaps@[j].buy_lock.unwrap(),
                    swaps@[j].sell_lock,
                ),
        decreases swaps.len() - i,
    {
        let swap = &swaps[i];
        match &swap.buy_lock {
            Some(buy) => {
                let shown = JsonLock::new(&swap.entry, buy, swap.sell_lock);
                let ghost before = locks@;
                locks.push(shown);
                assert forall|j: int| 0 <= j < i + 1 implies (#[trigger] locks@[j]).shows(
                    swaps@[j].entry,
                    swaps@[j].buy_lock.unwrap(),
                    swaps@[j].sell_lock,
                ) by {
                    if j < i {
                        assert(locks@[j] == before[j]);
                    }
                }
            },
            None => {
                assert(0 <= i < swaps@.len() && swaps@[i as int].buy_lock is None);
                return Err(ConsistencyError::MissingBuyLock);
            },
        }
        i += 1;
    }
    Ok(
        Some(
            ResponseMessage::Order {
                sell_chain_id: key.chain_id,
                sell_adapter_id: key.adapter_id,
                order: JsonOrder::new(&key.order_id, &terms, held),
                locks,
            },
        ),
    )
}

} // verus!
