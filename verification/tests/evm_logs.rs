use acuity_index::events::{hash_secret, Market, OrderTerms, SwapEvent};
use acuity_index::evm::{
    EventTopics, EvmAdapter, LogLayout, ARBITRUM_CHAIN_ID, ETHEREUM_CHAIN_ID, NATIVE_CHAIN_ID,
};
use acuity_index::shared::{LockKey, OrderStatic};

const ADDRESS_A: [u8; 20] = [
    0x74, 0x4a, 0xc7, 0xbb, 0xcf, 0xdd, 0xa8, 0xfd, 0xb4, 0x1c, 0xf5, 0x5c, 0x02, 0x0d, 0x62, 0xf2,
    0x10, 0x98, 0x87, 0xa5,
];
const ADDRESS_B: [u8; 20] = [
    0xd0, 0x56, 0x47, 0xdd, 0x9d, 0x7b, 0x17, 0xab, 0xeb, 0xa9, 0x53, 0xfb, 0xf2, 0xdc, 0x8d, 0x8e,
    0x87, 0xc1, 0x9c, 0xb3,
];

const SECRET: [u8; 32] = [
    0, 1, 2, 3, 4, 5, 6, 7, 8, 9, 10, 11, 12, 13, 14, 15, 16, 17, 18, 19, 20, 21, 22, 23, 24, 25,
    26, 27, 28, 29, 30, 31,
];
const HASHED_SECRET: [u8; 32] = [
    138, 225, 170, 89, 127, 161, 70, 235, 211, 170, 44, 237, 223, 54, 6, 104, 222, 165, 229, 38,
    86, 126, 146, 176, 50, 24, 22, 164, 232, 149, 189, 45,
];

fn topics() -> EventTopics {
    EventTopics {
        add_to_order: [1; 32],
        remove_from_order: [2; 32],
        lock_sell: [3; 32],
        unlock_sell: [4; 32],
        timeout_sell: [5; 32],
        lock_buy: [6; 32],
        unlock_buy: [7; 32],
        timeout_buy: [8; 32],
    }
}

fn blob(len: usize) -> Vec<u8> {
    (0..len).map(|i| (i % 251) as u8).collect()
}

fn put(data: &mut Vec<u8>, offset: usize, bytes: &[u8]) {
    data[offset..offset + bytes.len()].copy_from_slice(bytes);
}

fn amount(value: u128) -> [u8; 16] {
    value.to_be_bytes()
}

fn add_to_order_blob() -> Vec<u8> {
    let mut data = blob(160);
    put(&mut data, 0, &[0x0d; 16]);
    put(&mut data, 32, &[0x01; 32]);
    put(&mut data, 80, &amount(100));
    put(&mut data, 96, &[0xaa; 32]);
    put(&mut data, 144, &amount(500));
    data
}

fn lock_buy_blob() -> Vec<u8> {
    let mut data = blob(224);
    put(&mut data, 0, &[0xb1; 32]);
    put(&mut data, 64, &HASHED_SECRET);
    put(&mut data, 112, &amount(7_000));
    put(&mut data, 144, &amount(600));
    put(&mut data, 168, &[0xe1; 8]);
    put(&mut data, 176, &[0xe2; 8]);
    put(&mut data, 184, &[0xe3; 8]);
    put(&mut data, 192, &[0xfa; 32]);
    data
}

#[test]
fn known_deployments() {
    let arbitrum = EvmAdapter::arbitrum(topics());
    assert_eq!(arbitrum.chain_id, 9001);
    assert_eq!(ARBITRUM_CHAIN_ID, 9001);
    assert_eq!(arbitrum.adapter_id, 0);
    assert_eq!(arbitrum.asset_id, [0; 8]);
    assert_eq!(arbitrum.peer_chain_id, 76);
    assert_eq!(NATIVE_CHAIN_ID, 76);
    assert_eq!(arbitrum.peer_adapter_id, 0);
    assert_eq!(arbitrum.peer_asset_id, [0; 8]);
    assert_eq!(arbitrum.sell_contract, ADDRESS_A);
    assert_eq!(arbitrum.buy_contract, ADDRESS_B);
    assert_eq!(arbitrum.topics, topics());
    assert_eq!(arbitrum.layout, LogLayout::standard(168));

    let ethereum = EvmAdapter::ethereum(topics());
    assert_eq!(ethereum.chain_id, 60);
    assert_eq!(ETHEREUM_CHAIN_ID, 60);
    assert_eq!(ethereum.peer_chain_id, 76);
    assert_eq!(ethereum.sell_contract, ADDRESS_B);
    assert_eq!(ethereum.buy_contract, ADDRESS_A);
    assert_eq!(ethereum.layout, LogLayout::standard(176));
}

#[test]
fn standard_layout_offsets() {
    let layout = LogLayout::standard(168);
    assert_eq!(layout.add_to_order.order_id, 0);
    assert_eq!(layout.add_to_order.seller, 32);
    assert_eq!(layout.add_to_order.price, 80);
    assert_eq!(layout.add_to_order.foreign_address, 96);
    assert_eq!(layout.add_to_order.value, 144);
    assert_eq!(layout.remove_from_order.seller, 0);
    assert_eq!(layout.remove_from_order.price, 48);
    assert_eq!(layout.remove_from_order.foreign_address, 64);
    assert_eq!(layout.remove_from_order.value, 112);
    assert_eq!(layout.lock_sell.order_id, 0);
    assert_eq!(layout.lock_sell.hashed_secret, 32);
    assert_eq!(layout.lock_sell.timeout, 80);
    assert_eq!(layout.lock_sell.value, 112);
    assert_eq!(layout.unlock_sell.order_id, 0);
    assert_eq!(layout.unlock_sell.secret, 32);
    assert_eq!(layout.timeout_sell.order_id, 0);
    assert_eq!(layout.timeout_sell.hashed_secret, 32);
    assert_eq!(layout.lock_buy.buyer, 0);
    assert_eq!(layout.lock_buy.hashed_secret, 64);
    assert_eq!(layout.lock_buy.timeout, 112);
    assert_eq!(layout.lock_buy.value, 144);
    assert_eq!(layout.lock_buy.order_id, 168);
    assert_eq!(layout.lock_buy.foreign_address, 192);
    assert_eq!(layout.unlock_buy.buyer, 0);
    assert_eq!(layout.unlock_buy.secret, 32);
    assert_eq!(layout.timeout_buy.buyer, 0);
    assert_eq!(layout.timeout_buy.hashed_secret, 32);
}

#[test]
fn add_to_order_log() {
    let adapter = EvmAdapter::arbitrum(topics());
    let event = adapter.decode_log(&ADDRESS_A, &vec![[1; 32]], &add_to_order_blob());
    assert_eq!(
        event,
        Some(SwapEvent::OrderAdded {
            terms: OrderTerms {
                sell_chain_id: 9001,
                sell_adapter_id: 0,
                sell_asset_id: [0; 8],
                order_id: [0x0d; 16],
                order: OrderStatic {
                    seller: [0x01; 32],
                    chain_id: 76,
                    adapter_id: 0,
                    asset_id: [0; 8],
                    price: 100,
                    foreign_address: [0xaa; 32],
                },
            },
            value: 500,
        })
    );
}

#[test]
fn a_log_that_is_too_short_decodes_to_nothing() {
    let adapter = EvmAdapter::arbitrum(topics());
    let mut data = add_to_order_blob();
    data.truncate(159);
    assert_eq!(adapter.decode_log(&ADDRESS_A, &vec![[1; 32]], &data), None);
    assert_eq!(adapter.decode_log(&ADDRESS_A, &vec![[1; 32]], &Vec::new()), None);
    assert_eq!(adapter.add_to_order(&data), None);
    data.push(0);
    assert!(adapter.add_to_order(&data).is_some());
}

#[test]
fn logs_of_others_decode_to_nothing() {
    let adapter = EvmAdapter::arbitrum(topics());
    let data = add_to_order_blob();
    assert_eq!(adapter.decode_log(&[0x99; 20], &vec![[1; 32]], &data), None);
    assert_eq!(adapter.decode_log(&ADDRESS_A, &Vec::new(), &data), None);
    assert_eq!(adapter.decode_log(&ADDRESS_A, &vec![[0x77; 32]], &data), None);
    assert_eq!(adapter.decode_log(&ADDRESS_A, &vec![[6; 32]], &lock_buy_blob()), None);
    assert_eq!(adapter.decode_log(&ADDRESS_B, &vec![[1; 32]], &data), None);
    assert_eq!(adapter.decode_log(&ADDRESS_A, &vec![[0x77; 32], [1; 32]], &data), None);
}

#[test]
fn the_contract_selects_the_side() {
    let data = add_to_order_blob();
    let on_ethereum = EvmAdapter::ethereum(topics()).decode_log(&ADDRESS_B, &vec![[1; 32]], &data);
    match on_ethereum {
        Some(SwapEvent::OrderAdded { terms, value }) => {
            assert_eq!(terms.sell_chain_id, 60);
            assert_eq!(terms.order.chain_id, 76);
            assert_eq!(value, 500);
        },
        other => panic!("unexpected {:?}", other),
    }
    assert_eq!(EvmAdapter::ethereum(topics()).decode_log(&ADDRESS_A, &vec![[1; 32]], &data), None);
}

#[test]
fn remove_from_order_log_derives_the_order_id() {
    let adapter = EvmAdapter::arbitrum(topics());
    let mut data = blob(128);
    put(&mut data, 0, &[0x01; 32]);
    put(&mut data, 48, &amount(100));
    put(&mut data, 64, &[0xaa; 32]);
    put(&mut data, 112, &amount(200));
    let order = OrderStatic {
        seller: [0x01; 32],
        chain_id: 76,
        adapter_id: 0,
        asset_id: [0; 8],
        price: 100,
        foreign_address: [0xaa; 32],
    };
    let expected_id = [78, 217, 39, 8, 184, 141, 30, 50, 124, 34, 130, 19, 64, 179, 146, 234];
    assert_eq!(order.get_order_id(), expected_id);
    assert_eq!(
        adapter.decode_log(&ADDRESS_A, &vec![[2; 32]], &data),
        Some(SwapEvent::OrderRemoved {
            terms: OrderTerms {
                sell_chain_id: 9001,
                sell_adapter_id: 0,
                sell_asset_id: [0; 8],
                order_id: expected_id,
                order,
            },
            value: 200,
        })
    );
    data.truncate(127);
    assert_eq!(adapter.decode_log(&ADDRESS_A, &vec![[2; 32]], &data), None);
}

#[test]
fn lock_sell_log() {
    let adapter = EvmAdapter::arbitrum(topics());
    let mut data = blob(128);
    put(&mut data, 0, &[0x0d; 16]);
    put(&mut data, 32, &[0x5e; 32]);
    put(&mut data, 80, &amount(1_700_000_000));
    put(&mut data, 112, &amount(250));
    assert_eq!(
        adapter.decode_log(&ADDRESS_A, &vec![[3; 32]], &data),
        Some(SwapEvent::SellLocked {
            lock: LockKey { chain_id: 9001, adapter_id: 0, hashed_secret: [0x5e; 32] },
            order_id: [0x0d; 16],
            value: 250,
            timeout: 1_700_000_000,
        })
    );
    data.truncate(127);
    assert_eq!(adapter.decode_log(&ADDRESS_A, &vec![[3; 32]], &data), None);
}

#[test]
fn unlock_sell_log_hashes_the_secret() {
    let adapter = EvmAdapter::arbitrum(topics());
    let mut data = blob(96);
    put(&mut data, 0, &[0x0d; 16]);
    put(&mut data, 32, &SECRET);
    assert_eq!(
        adapter.decode_log(&ADDRESS_A, &vec![[4; 32]], &data),
        Some(SwapEvent::SellUnlocked {
            lock: LockKey { chain_id: 9001, adapter_id: 0, hashed_secret: HASHED_SECRET },
            order_id: [0x0d; 16],
            secret: SECRET,
        })
    );
    data.truncate(63);
    assert_eq!(adapter.decode_log(&ADDRESS_A, &vec![[4; 32]], &data), None);
}

#[test]
fn hash_secret_is_keccak_256() {
    assert_eq!(hash_secret(&SECRET), HASHED_SECRET);
    assert_eq!(
        hash_secret(&[7; 32]),
        [
            123, 6, 32, 100, 9, 90, 151, 87, 138, 15, 12, 245, 53, 221, 50, 31, 72, 241, 2, 235,
            200, 122, 140, 161, 109, 212, 180, 197, 252, 108, 77, 168
        ]
    );
}

#[test]
fn timeout_sell_log() {
    let adapter = EvmAdapter::ethereum(topics());
    let mut data = blob(64);
    put(&mut data, 0, &[0x0d; 16]);
    put(&mut data, 32, &[0x5e; 32]);
    assert_eq!(
        adapter.decode_log(&ADDRESS_B, &vec![[5; 32]], &data),
        Some(SwapEvent::SellTimedOut {
            lock: LockKey { chain_id: 60, adapter_id: 0, hashed_secret: [0x5e; 32] },
            order_id: [0x0d; 16],
        })
    );
    data.truncate(63);
    assert_eq!(adapter.decode_log(&ADDRESS_B, &vec![[5; 32]], &data), None);
}

fn expected_lock_buy(buy_chain_id: u32, order_id: [u8; 16]) -> SwapEvent {
    SwapEvent::BuyLocked {
        lock: LockKey { chain_id: 76, adapter_id: 0, hashed_secret: HASHED_SECRET },
        market: Market {
            sell_chain_id: 76,
            sell_asset_id: [0; 8],
            buy_chain_id,
            buy_asset_id: [0; 8],
        },
        order_id,
        value: 600,
        timeout: 7_000,
        buyer: [0xb1; 32],
        foreign_address: [0xfa; 32],
    }
}

#[test]
fn lock_buy_log_differs_between_the_deployments() {
    let data = lock_buy_blob();
    let mut at_168 = [0xe1; 16];
    at_168[8..].copy_from_slice(&[0xe2; 8]);
    let mut at_176 = [0xe2; 16];
    at_176[8..].copy_from_slice(&[0xe3; 8]);
    assert_eq!(
        EvmAdapter::arbitrum(topics()).decode_log(&ADDRESS_B, &vec![[6; 32]], &data),
        Some(expected_lock_buy(9001, at_168))
    );
    assert_eq!(
        EvmAdapter::ethereum(topics()).decode_log(&ADDRESS_A, &vec![[6; 32]], &data),
        Some(expected_lock_buy(60, at_176))
    );
    let mut short = data.clone();
    short.truncate(223);
    assert_eq!(EvmAdapter::arbitrum(topics()).decode_log(&ADDRESS_B, &vec![[6; 32]], &short), None);
}

#[test]
fn unlock_buy_log_is_filed_under_the_selling_chain() {
    let adapter = EvmAdapter::arbitrum(topics());
    let mut data = blob(64);
    put(&mut data, 0, &[0xb1; 32]);
    put(&mut data, 32, &SECRET);
    assert_eq!(
        adapter.decode_log(&ADDRESS_B, &vec![[7; 32]], &data),
        Some(SwapEvent::BuyUnlocked {
            lock: LockKey { chain_id: 76, adapter_id: 0, hashed_secret: HASHED_SECRET },
            buyer: [0xb1; 32],
        })
    );
    data.truncate(63);
    assert_eq!(adapter.decode_log(&ADDRESS_B, &vec![[7; 32]], &data), None);
}

#[test]
fn timeout_buy_log() {
    let adapter = EvmAdapter::arbitrum(topics());
    let mut data = blob(64);
    put(&mut data, 0, &[0xb1; 32]);
    put(&mut data, 32, &[0x5e; 32]);
    assert_eq!(
        adapter.decode_log(&ADDRESS_B, &vec![[8; 32]], &data),
        Some(SwapEvent::BuyTimedOut {
            lock: LockKey { chain_id: 76, adapter_id: 0, hashed_secret: [0x5e; 32] },
            buyer: [0xb1; 32],
        })
    );
}

#[test]
fn a_variant_with_other_offsets_reads_other_bytes() {
    let mut adapter = EvmAdapter::arbitrum(topics());
    adapter.chain_id = 5;
    adapter.adapter_id = 2;
    adapter.peer_chain_id = 6;
    adapter.peer_adapter_id = 3;
    adapter.asset_id = [4; 8];
    adapter.peer_asset_id = [9; 8];
    adapter.layout.add_to_order.value = 16;
    let mut data = add_to_order_blob();
    put(&mut data, 16, &amount(12_345));
    match adapter.decode_log(&ADDRESS_A, &vec![[1; 32]], &data) {
        Some(SwapEvent::OrderAdded { terms, value }) => {
            assert_eq!(value, 12_345);
            assert_eq!(terms.sell_chain_id, 5);
            assert_eq!(terms.sell_adapter_id, 2);
            assert_eq!(terms.sell_asset_id, [4; 8]);
            assert_eq!(terms.order.chain_id, 6);
            assert_eq!(terms.order.adapter_id, 3);
            assert_eq!(terms.order.asset_id, [9; 8]);
        },
        other => panic!("unexpected {:?}", other),
    }
    adapter.layout.add_to_order.value = usize::MAX;
    assert_eq!(adapter.decode_log(&ADDRESS_A, &vec![[1; 32]], &data), None);
}

#[test]
fn order_terms_give_the_keys_of_the_order() {
    let terms = OrderTerms {
        sell_chain_id: 9001,
        sell_adapter_id: 4,
        sell_asset_id: [3; 8],
        order_id: [0x0d; 16],
        order: OrderStatic {
            seller: [1; 32],
            chain_id: 76,
            adapter_id: 1,
            asset_id: [2; 8],
            price: 100,
            foreign_address: [0xaa; 32],
        },
    };
    let key = terms.order_key();
    assert_eq!((key.chain_id, key.adapter_id, key.order_id), (9001, 4, [0x0d; 16]));
    assert_eq!(
        terms.market(),
        Market { sell_chain_id: 9001, sell_asset_id: [3; 8], buy_chain_id: 76, buy_asset_id: [2; 8] }
    );
    let entry = terms.list_key(800);
    assert_eq!(entry.sell_chain_id, 9001);
    assert_eq!(entry.sell_asset_id, [3; 8]);
    assert_eq!(entry.buy_chain_id, 76);
    assert_eq!(entry.buy_asset_id, [2; 8]);
    assert_eq!(entry.value, 800);
    assert_eq!(entry.sell_adapter_id, 4);
    assert_eq!(entry.order_id, [0x0d; 16]);
}

fn lengths(len: usize) -> acuity_index::evm::PayloadLengths {
    acuity_index::evm::PayloadLengths {
        add_to_order: len,
        remove_from_order: len,
        lock_sell: len,
        unlock_sell: len,
        timeout_sell: len,
        lock_buy: len,
        unlock_buy: len,
        timeout_buy: len,
    }
}

#[test]
fn each_table_fits_from_its_last_field_on() {
    let layout = LogLayout::standard(176);
    assert!(layout.add_to_order.fits_in(160));
    assert!(!layout.add_to_order.fits_in(159));
    assert!(layout.remove_from_order.fits_in(128));
    assert!(!layout.remove_from_order.fits_in(127));
    assert!(layout.lock_sell.fits_in(128));
    assert!(!layout.lock_sell.fits_in(127));
    assert!(layout.unlock_sell.fits_in(64));
    assert!(!layout.unlock_sell.fits_in(63));
    assert!(layout.timeout_sell.fits_in(64));
    assert!(!layout.timeout_sell.fits_in(63));
    assert!(layout.lock_buy.fits_in(224));
    assert!(!layout.lock_buy.fits_in(223));
    assert!(layout.unlock_buy.fits_in(64));
    assert!(!layout.unlock_buy.fits_in(63));
    assert!(layout.timeout_buy.fits_in(64));
    assert!(!layout.timeout_buy.fits_in(63));
}

#[test]
fn a_table_is_validated_against_the_lengths_of_the_logs() {
    let layout = LogLayout::standard(168);
    assert!(layout.validate(&lengths(224)));
    assert!(!layout.validate(&lengths(223)));
    let exact = acuity_index::evm::PayloadLengths {
        add_to_order: 160,
        remove_from_order: 128,
        lock_sell: 128,
        unlock_sell: 64,
        timeout_sell: 64,
        lock_buy: 224,
        unlock_buy: 64,
        timeout_buy: 64,
    };
    assert!(layout.validate(&exact));
    for short in 0..8 {
        let mut lens = exact;
        match short {
            0 => lens.add_to_order -= 1,
            1 => lens.remove_from_order -= 1,
            2 => lens.lock_sell -= 1,
            3 => lens.unlock_sell -= 1,
            4 => lens.timeout_sell -= 1,
            5 => lens.lock_buy -= 1,
            6 => lens.unlock_buy -= 1,
            _ => lens.timeout_buy -= 1,
        }
        assert!(!layout.validate(&lens));
    }
    let mut beyond = LogLayout::standard(168);
    beyond.lock_buy.order_id = 209;
    assert!(!beyond.validate(&exact));
    beyond.lock_buy.order_id = usize::MAX;
    assert!(!beyond.validate(&lengths(usize::MAX)));
}

#[test]
fn the_parts_of_an_event_are_made_by_the_adapter() {
    let adapter = EvmAdapter::arbitrum(topics());
    assert_eq!(
        adapter.order_static([1; 32], 100, [0xaa; 32]),
        OrderStatic {
            seller: [1; 32],
            chain_id: 76,
            adapter_id: 0,
            asset_id: [0; 8],
            price: 100,
            foreign_address: [0xaa; 32],
        }
    );
    assert_eq!(
        adapter.sell_terms([0x0d; 16], [1; 32], 100, [0xaa; 32]),
        OrderTerms {
            sell_chain_id: 9001,
            sell_adapter_id: 0,
            sell_asset_id: [0; 8],
            order_id: [0x0d; 16],
            order: adapter.order_static([1; 32], 100, [0xaa; 32]),
        }
    );
    assert_eq!(
        adapter.sell_lock_key([5; 32]),
        LockKey { chain_id: 9001, adapter_id: 0, hashed_secret: [5; 32] }
    );
    assert_eq!(
        adapter.buy_lock_key([5; 32]),
        LockKey { chain_id: 76, adapter_id: 0, hashed_secret: [5; 32] }
    );
    assert_eq!(
        adapter.buy_market(),
        Market { sell_chain_id: 76, sell_asset_id: [0; 8], buy_chain_id: 9001, buy_asset_id: [0; 8] }
    );
}
