use phoenix_sdk::addr::{Address, TxSignature};
use phoenix_sdk::client::SDKClientCore;
use phoenix_sdk::err::SdkError;
use phoenix_sdk::events::{MarketEventDetails, MarketEventWrapper, Side};
use phoenix_sdk::meta::MarketMetadata;

fn addr(tag: u8) -> Address {
    Address::from_bytes(vec![tag; 32])
}

fn sig(tag: u8) -> TxSignature {
    TxSignature::from_bytes(vec![tag; 64])
}

fn test_meta() -> MarketMetadata {
    MarketMetadata {
        base_mint: addr(0xBB),
        quote_mint: addr(0xCC),
        base_decimals: 9,
        quote_decimals: 6,
        base_multiplier: 1_000_000_000,
        quote_multiplier: 1_000_000,
        quote_lot_size: 10,
        base_lot_size: 1000,
        tick_size: 100,
        num_base_lots_per_base_unit: 1000,
        num_quote_lots_per_tick: 10,
    }
}

fn test_core() -> SDKClientCore {
    let market_key = addr(0xAA);
    let mut core = SDKClientCore::new(market_key.clone(), addr(0x77));
    core.add_market(market_key, test_meta()).unwrap();
    core
}

fn push_u16(v: &mut Vec<u8>, x: u16) {
    v.extend_from_slice(&x.to_le_bytes());
}

fn push_u64(v: &mut Vec<u8>, x: u64) {
    v.extend_from_slice(&x.to_le_bytes());
}

fn push_u128(v: &mut Vec<u8>, x: u128) {
    v.extend_from_slice(&x.to_le_bytes());
}

fn push_i64(v: &mut Vec<u8>, x: i64) {
    v.extend_from_slice(&x.to_le_bytes());
}

/// A 92-byte header record: discriminant 1, instruction byte, market
/// sequence number, timestamp, slot, market key, signer key, event count.
fn header_bytes(market: &Address, seq: u64, ts: i64, slot: u64, signer: &Address, total: u16) -> Vec<u8> {
    let mut v = vec![1u8, 0u8];
    push_u64(&mut v, seq);
    push_i64(&mut v, ts);
    push_u64(&mut v, slot);
    v.extend_from_slice(market.as_bytes());
    v.extend_from_slice(signer.as_bytes());
    push_u16(&mut v, total);
    assert_eq!(v.len(), 92);
    v
}

fn fill_bytes(index: u16, maker: &Address, osn: u64, price: u64, filled: u64, remaining: u64) -> Vec<u8> {
    let mut v = vec![2u8];
    push_u16(&mut v, index);
    v.extend_from_slice(maker.as_bytes());
    push_u64(&mut v, osn);
    push_u64(&mut v, price);
    push_u64(&mut v, filled);
    push_u64(&mut v, remaining);
    assert_eq!(v.len(), 67);
    v
}

fn place_bytes(index: u16, osn: u64, coid: u128, price: u64, placed: u64) -> Vec<u8> {
    let mut v = vec![3u8];
    push_u16(&mut v, index);
    push_u64(&mut v, osn);
    push_u128(&mut v, coid);
    push_u64(&mut v, price);
    push_u64(&mut v, placed);
    assert_eq!(v.len(), 43);
    v
}

fn reduce_bytes(index: u16, osn: u64, price: u64, removed: u64, remaining: u64) -> Vec<u8> {
    let mut v = vec![4u8];
    push_u16(&mut v, index);
    push_u64(&mut v, osn);
    push_u64(&mut v, price);
    push_u64(&mut v, removed);
    push_u64(&mut v, remaining);
    assert_eq!(v.len(), 35);
    v
}

fn evict_bytes(index: u16, maker: &Address, osn: u64, price: u64, evicted: u64) -> Vec<u8> {
    let mut v = vec![5u8];
    push_u16(&mut v, index);
    v.extend_from_slice(maker.as_bytes());
    push_u64(&mut v, osn);
    push_u64(&mut v, price);
    push_u64(&mut v, evicted);
    assert_eq!(v.len(), 59);
    v
}

fn fill_summary_bytes(index: u16, coid: u128, base_lots: u64, quote_lots: u64, fee_lots: u64) -> Vec<u8> {
    let mut v = vec![6u8];
    push_u16(&mut v, index);
    push_u128(&mut v, coid);
    push_u64(&mut v, base_lots);
    push_u64(&mut v, quote_lots);
    push_u64(&mut v, fee_lots);
    assert_eq!(v.len(), 43);
    v
}

#[test]
fn discriminant_bytes_map_to_event_kinds() {
    assert!(MarketEventWrapper::from_discriminant(0) == Some(MarketEventWrapper::Uninitialized));
    assert!(MarketEventWrapper::from_discriminant(1) == Some(MarketEventWrapper::Header));
    assert!(MarketEventWrapper::from_discriminant(2) == Some(MarketEventWrapper::Fill));
    assert!(MarketEventWrapper::from_discriminant(3) == Some(MarketEventWrapper::Place));
    assert!(MarketEventWrapper::from_discriminant(4) == Some(MarketEventWrapper::Reduce));
    assert!(MarketEventWrapper::from_discriminant(5) == Some(MarketEventWrapper::Evict));
    assert!(MarketEventWrapper::from_discriminant(6) == Some(MarketEventWrapper::FillSummary));
    assert!(MarketEventWrapper::from_discriminant(7) == None);
    assert!(MarketEventWrapper::from_discriminant(255) == None);
}

#[test]
fn decodes_header_fill_reduce_in_order() {
    let core = test_core();
    let market = addr(0xAA);
    let signer = addr(0x55);
    let maker = addr(0x66);
    let mut log = header_bytes(&market, 42, 1_700_000_000, 9000, &signer, 2);
    // An ask order (top bit clear) partially filled, then fully cancelled.
    log.extend_from_slice(&fill_bytes(0, &maker, 7, 15, 3, 2));
    log.extend_from_slice(&reduce_bytes(1, 7, 15, 2, 0));
    let events = core
        .parse_wrapper_events(&sig(0x11), &vec![log])
        .expect("a well-formed log decodes");
    assert_eq!(events.len(), 2);

    assert_eq!(events[0].event_index, 0);
    assert_eq!(events[1].event_index, 1);
    assert_eq!(events[0].sequence_number, 42);
    assert_eq!(events[0].slot, 9000);
    assert_eq!(events[0].timestamp, 1_700_000_000);
    assert!(events[0].market == market);
    assert!(events[0].signer == signer);
    assert!(events[0].signature == sig(0x11));

    match &events[0].details {
        MarketEventDetails::Fill(f) => {
            assert_eq!(f.order_sequence_number, 7);
            assert!(f.maker == maker);
            assert!(f.taker == signer);
            assert_eq!(f.price_in_ticks, 15);
            assert_eq!(f.base_lots_filled, 3);
            assert_eq!(f.base_lots_remaining, 2);
            assert!(f.side_filled == Side::Ask);
            assert!(!f.is_full_fill);
        }
        other => panic!("expected a fill, got {:?}", other),
    }
    match &events[1].details {
        MarketEventDetails::Reduce(x) => {
            assert_eq!(x.order_sequence_number, 7);
            assert!(x.maker == signer);
            assert_eq!(x.base_lots_removed, 2);
            assert_eq!(x.base_lots_remaining, 0);
            assert!(x.is_full_cancel);
        }
        other => panic!("expected a reduce, got {:?}", other),
    }
}

#[test]
fn truncated_payload_is_an_error_never_partial() {
    let core = test_core();
    let mut log = header_bytes(&addr(0xAA), 1, 0, 1, &addr(0x55), 2);
    log.extend_from_slice(&fill_bytes(0, &addr(0x66), 7, 15, 3, 2));
    let mut truncated = log.clone();
    truncated.extend_from_slice(&reduce_bytes(1, 7, 15, 2, 0)[..20]);
    let r = core.parse_wrapper_events(&sig(0x11), &vec![truncated]);
    assert!(r == Err(SdkError::TruncatedEvent));
}

#[test]
fn fill_summary_scales_lots_to_amounts() {
    let core = test_core();
    let mut log = header_bytes(&addr(0xAA), 1, 0, 1, &addr(0x55), 1);
    log.extend_from_slice(&fill_summary_bytes(0, 99, 5, 7, 3));
    let events = core.parse_wrapper_events(&sig(0x11), &vec![log]).unwrap();
    assert_eq!(events.len(), 1);
    match &events[0].details {
        MarketEventDetails::FillSummary(s) => {
            assert_eq!(s.client_order_id, 99);
            // 5 base lots at a base lot size of 1000.
            assert_eq!(s.total_base_filled, 5000);
            // 7 and 3 quote lots at a quote lot size of 10.
            assert_eq!(s.total_quote_filled_including_fees, 70);
            assert_eq!(s.total_quote_fees, 30);
        }
        other => panic!("expected a fill summary, got {:?}", other),
    }
}

#[test]
fn place_and_evict_decode() {
    let core = test_core();
    let maker = addr(0x66);
    let bid_osn = 1u64 << 63 | 9;
    let mut log = header_bytes(&addr(0xAA), 1, -5, 1, &addr(0x55), 2);
    log.extend_from_slice(&place_bytes(0, bid_osn, 1234, 20, 11));
    log.extend_from_slice(&evict_bytes(1, &maker, 3, 8, 6));
    let events = core.parse_wrapper_events(&sig(0x11), &vec![log]).unwrap();
    assert_eq!(events.len(), 2);
    assert_eq!(events[0].timestamp, -5);
    match &events[0].details {
        MarketEventDetails::Place(p) => {
            assert_eq!(p.order_sequence_number, bid_osn);
            assert_eq!(p.client_order_id, 1234);
            assert_eq!(p.price_in_ticks, 20);
            assert_eq!(p.base_lots_placed, 11);
            assert!(p.maker == addr(0x55));
        }
        other => panic!("expected a place, got {:?}", other),
    }
    match &events[1].details {
        MarketEventDetails::Evict(e) => {
            assert_eq!(e.order_sequence_number, 3);
            assert!(e.maker == maker);
            assert_eq!(e.price_in_ticks, 8);
            assert_eq!(e.base_lots_evicted, 6);
        }
        other => panic!("expected an evict, got {:?}", other),
    }
}

#[test]
fn header_only_log_is_valid_and_empty() {
    let core = test_core();
    let log = header_bytes(&addr(0xAA), 1, 0, 1, &addr(0x55), 0);
    let events = core.parse_wrapper_events(&sig(0x11), &vec![log]).unwrap();
    assert!(events.is_empty());
}

#[test]
fn short_buffer_is_a_malformed_header() {
    let core = test_core();
    let r = core.parse_wrapper_events(&sig(0x11), &vec![vec![1u8; 50]]);
    assert!(r == Err(SdkError::MalformedHeader));
}

#[test]
fn wrong_leading_discriminant_is_a_malformed_header() {
    let core = test_core();
    let mut log = header_bytes(&addr(0xAA), 1, 0, 1, &addr(0x55), 0);
    log[0] = 2;
    let r = core.parse_wrapper_events(&sig(0x11), &vec![log]);
    assert!(r == Err(SdkError::MalformedHeader));
}

#[test]
fn unknown_discriminant_is_an_error() {
    let core = test_core();
    let mut log = header_bytes(&addr(0xAA), 1, 0, 1, &addr(0x55), 1);
    log.push(9);
    let r = core.parse_wrapper_events(&sig(0x11), &vec![log]);
    assert!(r == Err(SdkError::UnknownEventKind));

    // A header discriminant in record position is just as fatal.
    let mut log2 = header_bytes(&addr(0xAA), 1, 0, 1, &addr(0x55), 1);
    log2.push(1);
    let r2 = core.parse_wrapper_events(&sig(0x11), &vec![log2]);
    assert!(r2 == Err(SdkError::UnknownEventKind));
}

#[test]
fn fill_summary_overflow_is_an_error() {
    let core = test_core();
    let mut log = header_bytes(&addr(0xAA), 1, 0, 1, &addr(0x55), 1);
    log.extend_from_slice(&fill_summary_bytes(0, 0, u64::MAX, 0, 0));
    let r = core.parse_wrapper_events(&sig(0x11), &vec![log]);
    assert!(r == Err(SdkError::ArithmeticOverflow));
}

#[test]
fn unregistered_market_fails_decoding() {
    // The active market key matches no registered market.
    let core = SDKClientCore::new(addr(0xAA), addr(0x77));
    let log = header_bytes(&addr(0xAA), 1, 0, 1, &addr(0x55), 0);
    let r = core.parse_wrapper_events(&sig(0x11), &vec![log]);
    assert!(r == Err(SdkError::MarketNotFound));
}

#[test]
fn one_bad_log_fails_the_whole_batch() {
    let core = test_core();
    let good = header_bytes(&addr(0xAA), 1, 0, 1, &addr(0x55), 0);
    let bad = vec![0u8; 10];
    let r = core.parse_wrapper_events(&sig(0x11), &vec![good, bad]);
    assert!(r == Err(SdkError::MalformedHeader));
}

#[test]
fn batch_concatenates_logs_in_order() {
    let core = test_core();
    let maker = addr(0x66);
    let mut log1 = header_bytes(&addr(0xAA), 1, 0, 1, &addr(0x55), 1);
    log1.extend_from_slice(&fill_bytes(0, &maker, 7, 15, 3, 0));
    let mut log2 = header_bytes(&addr(0xAA), 2, 0, 2, &addr(0x55), 1);
    log2.extend_from_slice(&reduce_bytes(0, 7, 15, 2, 1));
    let events = core.parse_wrapper_events(&sig(0x11), &vec![log1, log2]).unwrap();
    assert_eq!(events.len(), 2);
    assert_eq!(events[0].sequence_number, 1);
    assert_eq!(events[1].sequence_number, 2);
    match &events[0].details {
        MarketEventDetails::Fill(f) => assert!(f.is_full_fill),
        other => panic!("expected a fill, got {:?}", other),
    }
    match &events[1].details {
        MarketEventDetails::Reduce(x) => assert!(!x.is_full_cancel),
        other => panic!("expected a reduce, got {:?}", other),
    }
}
