use book_feed::{
    depth_tier, side_of, subscribe_message, CurrencyRequest, FeedAction, FeedError, FeedEvent,
    Ingester, MissingPricePolicy, OrderBook, OrderBookEntry, OrderBookSnapshot, OrderBookUpdate,
    Phase, PriceLevels, RecordKind, ServerInfo, Side, SubscribeInfo,
};

fn entry(price: f64, count: u64, amount: f64) -> OrderBookEntry {
    OrderBookEntry { price: price.to_bits(), count, amount: amount.to_bits() }
}

fn snapshot(entries: Vec<OrderBookEntry>) -> OrderBookSnapshot {
    OrderBookSnapshot { channel_id: 7, entries }
}

fn update(price: f64, count: u64, amount: f64) -> OrderBookUpdate {
    OrderBookUpdate { channel_id: 7, data: entry(price, count, amount) }
}

fn level(price: f64, count: u64) -> (u64, u64) {
    (price.to_bits(), count)
}

#[test]
fn side_routing_follows_amount_sign() {
    assert_eq!(side_of(3.5f64.to_bits()), Side::Bid);
    assert_eq!(side_of((-0.01f64).to_bits()), Side::Ask);
    assert_eq!(side_of(0.0f64.to_bits()), Side::Ask);
    assert_eq!(side_of((-0.0f64).to_bits()), Side::Ask);
    assert_eq!(side_of(f64::INFINITY.to_bits()), Side::Bid);
    assert_eq!(side_of(f64::NAN.to_bits()), Side::Ask);
    assert_eq!(side_of(f64::MIN_POSITIVE.to_bits()), Side::Bid);
}

#[test]
fn depth_tiers() {
    assert_eq!(depth_tier(0), Ok(25));
    assert_eq!(depth_tier(1), Ok(25));
    assert_eq!(depth_tier(25), Ok(25));
    assert_eq!(depth_tier(26), Ok(100));
    assert_eq!(depth_tier(100), Ok(100));
    assert_eq!(depth_tier(101), Ok(250));
    assert_eq!(depth_tier(250), Ok(250));
    assert_eq!(depth_tier(251), Err(FeedError::UnsupportedDepth { requested: 251 }));
    assert_eq!(depth_tier(u64::MAX), Err(FeedError::UnsupportedDepth { requested: u64::MAX }));
}

#[test]
fn subscribe_message_text() {
    assert_eq!(
        subscribe_message("tETHUSD", 25),
        "{\"event\":\"subscribe\",\"channel\":\"book\",\"symbol\":\"tETHUSD\",\"len\":25}"
    );
    assert_eq!(
        subscribe_message("tBTCUSD", 250),
        "{\"event\":\"subscribe\",\"channel\":\"book\",\"symbol\":\"tBTCUSD\",\"len\":250}"
    );
}

#[test]
fn levels_are_ordered_numerically() {
    let mut asks = PriceLevels::new(Side::Ask);
    let mut bids = PriceLevels::new(Side::Bid);
    for p in [100.0f64, 9.0, 25.5, 1000.0, 9.5] {
        asks.upsert(p.to_bits(), 1);
        bids.upsert(p.to_bits(), 2);
    }
    assert_eq!(
        asks.top(10),
        vec![level(9.0, 1), level(9.5, 1), level(25.5, 1), level(100.0, 1), level(1000.0, 1)]
    );
    assert_eq!(bids.top(3), vec![level(1000.0, 2), level(100.0, 2), level(25.5, 2)]);
    assert_eq!(asks.top(0), vec![]);
    assert_eq!(asks.len(), 5);
}

#[test]
fn price_levels_upsert_and_remove() {
    let mut asks = PriceLevels::new(Side::Ask);
    asks.upsert(10.0f64.to_bits(), 3);
    asks.upsert(10.0f64.to_bits(), 4);
    assert_eq!(asks.len(), 1);
    assert_eq!(asks.get(10.0f64.to_bits()), Some(4));
    assert!(asks.remove(10.0f64.to_bits()));
    assert!(!asks.remove(10.0f64.to_bits()));
    assert_eq!(asks.get(10.0f64.to_bits()), None);
    assert_eq!(asks.len(), 0);
    assert_eq!(asks.side(), Side::Ask);
}

#[test]
fn snapshot_builds_both_sides_in_order() {
    let book = OrderBook::new(
        snapshot(vec![
            entry(101.0, 2, -1.0),
            entry(99.0, 1, 2.0),
            entry(100.5, 3, -0.5),
            entry(98.0, 4, 1.5),
            entry(99.0, 5, 3.0),
        ]),
        5,
    );
    assert_eq!(book.num_levels(), 5);
    assert_eq!(book.top_bids(5), vec![level(99.0, 5), level(98.0, 4)]);
    assert_eq!(book.top_asks(5), vec![level(100.5, 3), level(101.0, 2)]);
    assert_eq!(book.top_asks(1), vec![level(100.5, 3)]);
}

#[test]
fn snapshot_zero_count_entry_leaves_no_level() {
    let book = OrderBook::new(snapshot(vec![entry(10.0, 2, 1.0), entry(10.0, 0, 1.0)]), 5);
    assert_eq!(book.top_bids(5), vec![]);
}

#[test]
fn same_price_on_both_sides_is_tracked_apart() {
    let mut book =
        OrderBook::new(snapshot(vec![entry(100.0, 1, 2.0), entry(100.0, 1, -1.0)]), 10);
    assert_eq!(book.top_bids(10), vec![level(100.0, 1)]);
    assert_eq!(book.top_asks(10), vec![level(100.0, 1)]);
    assert_eq!(book.update(update(100.0, 0, -1.0)), Ok(()));
    assert_eq!(book.top_asks(10), vec![]);
    assert_eq!(book.top_bids(10), vec![level(100.0, 1)]);
}

#[test]
fn deleting_a_present_price_removes_only_it() {
    let mut book = OrderBook::new(
        snapshot(vec![entry(1.0, 1, 1.0), entry(2.0, 2, 1.0), entry(3.0, 3, 1.0)]),
        10,
    );
    assert_eq!(book.update(update(2.0, 0, 5.0)), Ok(()));
    assert_eq!(book.top_bids(10), vec![level(3.0, 3), level(1.0, 1)]);
}

#[test]
fn deleting_an_absent_price_is_refused() {
    let mut book = OrderBook::new(snapshot(vec![entry(1.0, 1, 1.0), entry(4.0, 2, -1.0)]), 10);
    assert_eq!(
        book.update(update(4.0, 0, 1.0)),
        Err(FeedError::PriceNotFound { side: Side::Bid, price: 4.0f64.to_bits() })
    );
    assert_eq!(
        book.update(update(1.0, 0, -1.0)),
        Err(FeedError::PriceNotFound { side: Side::Ask, price: 1.0f64.to_bits() })
    );
    assert_eq!(book.top_bids(10), vec![level(1.0, 1)]);
    assert_eq!(book.top_asks(10), vec![level(4.0, 2)]);
}

#[test]
fn positive_count_adds_or_overwrites() {
    let mut book = OrderBook::new(snapshot(vec![entry(5.0, 1, -1.0)]), 10);
    assert_eq!(book.update(update(6.0, 7, -2.0)), Ok(()));
    assert_eq!(book.top_asks(10), vec![level(5.0, 1), level(6.0, 7)]);
    assert_eq!(book.update(update(5.0, 9, -2.0)), Ok(()));
    assert_eq!(book.top_asks(10), vec![level(5.0, 9), level(6.0, 7)]);
    assert_eq!(book.top_bids(10), vec![]);
}

#[test]
fn top_is_capped_by_n_and_size() {
    let book = OrderBook::new(
        snapshot(vec![entry(1.0, 1, -1.0), entry(2.0, 1, -1.0), entry(3.0, 1, -1.0)]),
        2,
    );
    assert_eq!(book.top_asks(2), vec![level(1.0, 1), level(2.0, 1)]);
    assert_eq!(book.top_asks(100).len(), 3);
    assert_eq!(book.top_bids(100).len(), 0);
}

fn request(levels: u64) -> CurrencyRequest {
    CurrencyRequest { name: "tETHUSD".to_string(), num_levels: levels }
}

fn server_info() -> FeedEvent {
    FeedEvent::ServerInfo(ServerInfo { version: 2, server_id: "abc".to_string() })
}

fn ack() -> FeedEvent {
    FeedEvent::SubscribeAck(SubscribeInfo { channel_id: 7, currency_name: "tETHUSD".to_string() })
}

#[test]
fn handshake_then_streaming() {
    let mut s = Ingester::new(request(5), MissingPricePolicy::Abort);
    assert!(matches!(s.start(), FeedAction::Read(RecordKind::ServerInfo)));
    assert_eq!(s.phase(), Phase::AwaitingServerInfo);
    match s.step(server_info()) {
        Ok(FeedAction::Subscribe(m)) => assert_eq!(m, subscribe_message("tETHUSD", 25)),
        other => panic!("unexpected {:?}", other),
    }
    assert_eq!(s.phase(), Phase::AwaitingSubscribeAck);
    assert!(matches!(s.step(ack()), Ok(FeedAction::Read(RecordKind::Snapshot))));
    assert!(s.order_book().is_none());
    let snap = FeedEvent::Snapshot(snapshot(vec![entry(10.0, 1, 1.0), entry(11.0, 2, -1.0)]));
    assert!(matches!(s.step(snap), Ok(FeedAction::RenderAndRead)));
    assert_eq!(s.phase(), Phase::Streaming);
    assert_eq!(s.order_book().unwrap().top_asks(5), vec![level(11.0, 2)]);
    assert!(matches!(s.step(FeedEvent::Undecodable), Ok(FeedAction::Read(RecordKind::Update))));
    assert!(matches!(s.step(FeedEvent::Update(update(9.0, 3, 1.0))), Ok(FeedAction::RenderAndRead)));
    assert_eq!(s.order_book().unwrap().top_bids(5), vec![level(10.0, 1), level(9.0, 3)]);
    assert_eq!(
        s.step(FeedEvent::Update(update(50.0, 0, 1.0))).err(),
        Some(FeedError::PriceNotFound { side: Side::Bid, price: 50.0f64.to_bits() })
    );
}

#[test]
fn skip_policy_reads_on_after_missing_price() {
    let mut s = Ingester::new(request(5), MissingPricePolicy::Skip);
    assert!(s.step(server_info()).is_ok());
    assert!(s.step(ack()).is_ok());
    assert!(s.step(FeedEvent::Snapshot(snapshot(vec![entry(10.0, 1, 1.0)]))).is_ok());
    assert!(matches!(
        s.step(FeedEvent::Update(update(50.0, 0, 1.0))),
        Ok(FeedAction::Read(RecordKind::Update))
    ));
    assert_eq!(s.order_book().unwrap().top_bids(5), vec![level(10.0, 1)]);
}

#[test]
fn handshake_message_of_wrong_shape_is_a_decode_error() {
    let mut s = Ingester::new(request(5), MissingPricePolicy::Abort);
    assert_eq!(s.step(FeedEvent::Undecodable).err(), Some(FeedError::Decode));
    assert!(s.step(server_info()).is_ok());
    assert_eq!(s.step(server_info()).err(), Some(FeedError::Decode));
    assert!(s.step(ack()).is_ok());
    assert_eq!(s.step(FeedEvent::Update(update(1.0, 1, 1.0))).err(), Some(FeedError::Decode));
    assert_eq!(s.phase(), Phase::AwaitingSnapshot);
}

#[test]
fn depth_250_subscribes_at_250() {
    let mut s = Ingester::new(request(250), MissingPricePolicy::Abort);
    assert_eq!(s.get_num_price_points(), Ok(250));
    match s.step(server_info()) {
        Ok(FeedAction::Subscribe(m)) => assert!(m.ends_with("\"len\":250}")),
        other => panic!("unexpected {:?}", other),
    }
}

#[test]
fn depth_300_fails_before_subscribing() {
    let mut s = Ingester::new(request(300), MissingPricePolicy::Abort);
    assert_eq!(s.get_num_price_points(), Err(FeedError::UnsupportedDepth { requested: 300 }));
    assert_eq!(
        s.step(server_info()).err(),
        Some(FeedError::UnsupportedDepth { requested: 300 })
    );
    assert_eq!(s.phase(), Phase::AwaitingServerInfo);
}
