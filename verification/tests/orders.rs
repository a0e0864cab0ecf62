use phoenix_sdk::addr::Address;
use phoenix_sdk::client::SDKClientCore;
use phoenix_sdk::err::SdkError;
use phoenix_sdk::events::{FIFOOrderId, SelfTradeBehavior, Side};
use phoenix_sdk::meta::MarketMetadata;
use phoenix_sdk::orders::OrderPacket;

fn addr(tag: u8) -> Address {
    Address::from_bytes(vec![tag; 32])
}

fn test_meta() -> MarketMetadata {
    MarketMetadata {
        base_mint: addr(0xBB),
        quote_mint: addr(0xCC),
        base_decimals: 9,
        quote_decimals: 6,
        base_multiplier: 1_000_000_000,
        quote_multiplier: 1_000_000,
        quote_lot_size: 10,
        base_lot_size: 1000,
        tick_size: 100,
        num_base_lots_per_base_unit: 1000,
        num_quote_lots_per_tick: 10,
    }
}

fn test_core() -> SDKClientCore {
    let market_key = addr(0xAA);
    let mut core = SDKClientCore::new(market_key.clone(), addr(0x77));
    core.add_market(market_key, test_meta()).unwrap();
    core
}

#[test]
fn side_is_derived_from_the_sequence_number_top_bit() {
    assert!(Side::from_order_sequence_number(0) == Side::Ask);
    assert!(Side::from_order_sequence_number(7) == Side::Ask);
    assert!(Side::from_order_sequence_number(1 << 63) == Side::Bid);
    assert!(Side::from_order_sequence_number(u64::MAX) == Side::Bid);
}

#[test]
fn ioc_ix_truncates_price_and_applies_defaults() {
    let core = test_core();
    let ix = core.get_ioc_ix(1050, Side::Bid, 25).unwrap();
    assert!(ix.market == addr(0xAA));
    assert!(ix.trader == addr(0x77));
    assert!(ix.base_mint == addr(0xBB));
    assert!(ix.quote_mint == addr(0xCC));
    assert!(
        ix.order_packet
            == OrderPacket::ImmediateOrCancel {
                side: Side::Bid,
                num_quote_ticks_per_base_unit: Some(10),
                num_base_lots: 25,
                num_quote_lots: 0,
                min_base_lots_to_fill: 0,
                min_quote_lots_to_fill: 0,
                self_trade_behavior: SelfTradeBehavior::CancelProvide,
                match_limit: None,
                client_order_id: 0,
                use_only_deposited_funds: false,
            }
    );
}

#[test]
fn ioc_generic_ix_keeps_explicit_options() {
    let core = test_core();
    let ix = core
        .get_ioc_generic_ix(
            1000,
            Side::Ask,
            5,
            Some(SelfTradeBehavior::Abort),
            Some(3),
            Some(42),
            Some(true),
        )
        .unwrap();
    assert!(
        ix.order_packet
            == OrderPacket::ImmediateOrCancel {
                side: Side::Ask,
                num_quote_ticks_per_base_unit: Some(10),
                num_base_lots: 5,
                num_quote_lots: 0,
                min_base_lots_to_fill: 0,
                min_quote_lots_to_fill: 0,
                self_trade_behavior: SelfTradeBehavior::Abort,
                match_limit: Some(3),
                client_order_id: 42,
                use_only_deposited_funds: true,
            }
    );
}

#[test]
fn fok_buy_budgets_quote_lots_and_sell_budgets_base_lots() {
    let core = test_core();
    // A buy divides size by the quote lot size (10) and demands a full fill.
    let buy = core
        .get_fok_buy_generic_ix(1000, 500, None, None, None, None)
        .unwrap();
    assert!(
        buy.order_packet
            == OrderPacket::ImmediateOrCancel {
                side: Side::Bid,
                num_quote_ticks_per_base_unit: Some(10),
                num_base_lots: 0,
                num_quote_lots: 50,
                min_base_lots_to_fill: 0,
                min_quote_lots_to_fill: 50,
                self_trade_behavior: SelfTradeBehavior::CancelProvide,
                match_limit: None,
                client_order_id: 0,
                use_only_deposited_funds: false,
            }
    );
    // A sell divides size by the base lot size (1000).
    let sell = core.get_fok_sell_ix(1000, 7000).unwrap();
    assert!(
        sell.order_packet
            == OrderPacket::ImmediateOrCancel {
                side: Side::Ask,
                num_quote_ticks_per_base_unit: Some(10),
                num_base_lots: 7,
                num_quote_lots: 0,
                min_base_lots_to_fill: 7,
                min_quote_lots_to_fill: 0,
                self_trade_behavior: SelfTradeBehavior::CancelProvide,
                match_limit: None,
                client_order_id: 0,
                use_only_deposited_funds: false,
            }
    );
    let sell2 = core
        .get_fok_sell_generic_ix(1000, 7000, None, None, Some(8), None)
        .unwrap();
    match sell2.order_packet {
        OrderPacket::ImmediateOrCancel { client_order_id, .. } => assert_eq!(client_order_id, 8),
        other => panic!("expected an immediate-or-cancel packet, got {:?}", other),
    }
}

#[test]
fn slippage_ix_carries_no_price() {
    let core = test_core();
    let buy = core.get_ioc_with_slippage_ix(200, 15, Side::Bid).unwrap();
    assert!(
        buy.order_packet
            == OrderPacket::ImmediateOrCancel {
                side: Side::Bid,
                num_quote_ticks_per_base_unit: None,
                num_base_lots: 0,
                num_quote_lots: 200,
                min_base_lots_to_fill: 15,
                min_quote_lots_to_fill: 0,
                self_trade_behavior: SelfTradeBehavior::CancelProvide,
                match_limit: None,
                client_order_id: 0,
                use_only_deposited_funds: false,
            }
    );
    let sell = core.get_ioc_with_slippage_ix(200, 15, Side::Ask).unwrap();
    match sell.order_packet {
        OrderPacket::ImmediateOrCancel {
            num_base_lots,
            num_quote_lots,
            min_quote_lots_to_fill,
            ..
        } => {
            assert_eq!(num_base_lots, 200);
            assert_eq!(num_quote_lots, 0);
            assert_eq!(min_quote_lots_to_fill, 15);
        }
        other => panic!("expected an immediate-or-cancel packet, got {:?}", other),
    }
}

#[test]
fn ioc_from_tick_price_keeps_the_tick_price_verbatim() {
    let core = test_core();
    let ix = core.get_ioc_from_tick_price_ix(37, Side::Ask, 4).unwrap();
    match ix.order_packet {
        OrderPacket::ImmediateOrCancel {
            side,
            num_quote_ticks_per_base_unit,
            num_base_lots,
            self_trade_behavior,
            match_limit,
            use_only_deposited_funds,
            ..
        } => {
            assert!(side == Side::Ask);
            assert_eq!(num_quote_ticks_per_base_unit, Some(37));
            assert_eq!(num_base_lots, 4);
            assert!(self_trade_behavior == SelfTradeBehavior::CancelProvide);
            assert_eq!(match_limit, None);
            assert!(!use_only_deposited_funds);
        }
        other => panic!("expected an immediate-or-cancel packet, got {:?}", other),
    }
}

#[test]
fn post_only_variants_differ_in_reject_flag() {
    let core = test_core();
    let plain = core.get_post_only_ix(1000, Side::Bid, 5).unwrap();
    assert!(
        plain.order_packet
            == OrderPacket::PostOnly {
                side: Side::Bid,
                num_quote_ticks_per_base_unit: 10,
                num_base_lots: 5,
                client_order_id: 0,
                reject_post_only: false,
                use_only_deposited_funds: false,
            }
    );
    // Amending on cross and rejecting on cross are two distinct packets.
    let amend = core
        .get_post_only_ix_from_tick_price(10, Side::Bid, 5, 9, true)
        .unwrap();
    let reject = core
        .get_post_only_ix_from_tick_price(10, Side::Bid, 5, 9, false)
        .unwrap();
    match (amend.order_packet, reject.order_packet) {
        (
            OrderPacket::PostOnly { reject_post_only: a, client_order_id: ca, .. },
            OrderPacket::PostOnly { reject_post_only: r, client_order_id: cr, .. },
        ) => {
            assert!(!a);
            assert!(r);
            assert_eq!(ca, 9);
            assert_eq!(cr, 9);
        }
        other => panic!("expected two post-only packets, got {:?}", other),
    }
}

#[test]
fn limit_order_default_self_trade_differs_from_ioc() {
    let core = test_core();
    let limit = core.get_limit_order_ix(1000, Side::Bid, 5).unwrap();
    assert!(
        limit.order_packet
            == OrderPacket::Limit {
                side: Side::Bid,
                num_quote_ticks_per_base_unit: 10,
                num_base_lots: 5,
                self_trade_behavior: SelfTradeBehavior::DecrementTake,
                match_limit: None,
                client_order_id: 0,
                use_only_deposited_funds: false,
            }
    );
    let with_id = core
        .get_limit_order_ix_from_tick_price(10, Side::Ask, 5, 77)
        .unwrap();
    assert!(
        with_id.order_packet
            == OrderPacket::Limit {
                side: Side::Ask,
                num_quote_ticks_per_base_unit: 10,
                num_base_lots: 5,
                self_trade_behavior: SelfTradeBehavior::CancelProvide,
                match_limit: None,
                client_order_id: 77,
                use_only_deposited_funds: false,
            }
    );
    let generic = core
        .get_limit_order_generic_ix(1000, Side::Bid, 5, Some(SelfTradeBehavior::Abort), None, None, None)
        .unwrap();
    match generic.order_packet {
        OrderPacket::Limit { self_trade_behavior, .. } => {
            assert!(self_trade_behavior == SelfTradeBehavior::Abort)
        }
        other => panic!("expected a limit packet, got {:?}", other),
    }
}

#[test]
fn cancel_ids_batch_derives_each_side() {
    let core = test_core();
    let bid_osn = (1u64 << 63) | 5;
    let ids = vec![
        FIFOOrderId { num_quote_ticks_per_base_unit: 10, order_sequence_number: bid_osn },
        FIFOOrderId { num_quote_ticks_per_base_unit: 20, order_sequence_number: 6 },
    ];
    let ix = core.get_cancel_ids_ix(ids).unwrap();
    assert!(ix.market == addr(0xAA));
    assert!(ix.trader == addr(0x77));
    assert_eq!(ix.orders.len(), 2);
    assert!(ix.orders[0].side == Side::Bid);
    assert_eq!(ix.orders[0].num_quote_ticks_per_base_unit, 10);
    assert_eq!(ix.orders[0].order_id, bid_osn);
    assert!(ix.orders[1].side == Side::Ask);
    assert_eq!(ix.orders[1].num_quote_ticks_per_base_unit, 20);
    assert_eq!(ix.orders[1].order_id, 6);
}

#[test]
fn cancel_up_to_carries_the_boundary() {
    let core = test_core();
    let bounded = core.get_cancel_up_to_ix(Some(55), Side::Ask).unwrap();
    assert!(bounded.side == Side::Ask);
    assert_eq!(bounded.tick_limit, Some(55));
    assert_eq!(bounded.num_orders_to_search, None);
    assert_eq!(bounded.num_orders_to_cancel, None);
    let unbounded = core.get_cancel_up_to_ix(None, Side::Bid).unwrap();
    assert_eq!(unbounded.tick_limit, None);
}

#[test]
fn client_order_ids_are_drawn_from_the_random_source() {
    let core = test_core();
    // Two independent draws of a 128-bit id virtually never collide; a
    // stuck source would.
    assert_ne!(core.get_next_client_order_id(), core.get_next_client_order_id());
    let a = core.get_ioc_from_tick_price_ix(37, Side::Ask, 4).unwrap();
    let b = core.get_ioc_from_tick_price_ix(37, Side::Ask, 4).unwrap();
    match (a.order_packet, b.order_packet) {
        (
            OrderPacket::ImmediateOrCancel { client_order_id: ca, .. },
            OrderPacket::ImmediateOrCancel { client_order_id: cb, .. },
        ) => assert_ne!(ca, cb),
        other => panic!("expected two immediate-or-cancel packets, got {:?}", other),
    }
}

#[test]
fn order_building_needs_a_registered_market() {
    let core = SDKClientCore::new(addr(0xAA), addr(0x77));
    assert_eq!(core.get_ioc_ix(1000, Side::Bid, 5), Err(SdkError::MarketNotFound));
    assert_eq!(core.get_cancel_ids_ix(vec![]), Err(SdkError::MarketNotFound));
    assert_eq!(core.get_cancel_up_to_ix(None, Side::Bid), Err(SdkError::MarketNotFound));
    assert_eq!(
        core.get_post_only_ix(1000, Side::Bid, 5),
        Err(SdkError::MarketNotFound)
    );
    assert_eq!(
        core.get_limit_order_ix(1000, Side::Bid, 5),
        Err(SdkError::MarketNotFound)
    );
}
