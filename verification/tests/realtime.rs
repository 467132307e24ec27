use trading_system::realtime::{apply_tick, price_is_fresh, quoted_price, QuotedPrice, TickUpdate, TickerRecord};
use trading_system::store::KeyedStore;

#[test]
fn ticks_update_the_cache() {
    let mut cache: KeyedStore<TickerRecord<f64>> = KeyedStore::new();
    apply_tick(&mut cache, "AAPL".to_string(), TickUpdate::Quote { bid: 10.0, ask: 10.2, mid: 10.1, no_volume: 0.0, time: 5 }, 100);
    let r = *cache.get("AAPL").unwrap();
    assert_eq!(r.last_price, 10.1);
    assert_eq!(r.last_volume, 0.0);
    assert_eq!(r.bid, Some(10.0));
    assert_eq!(r.cached_at, 100);
    assert_eq!(quoted_price(&r), QuotedPrice::Mid);

    apply_tick(&mut cache, "AAPL".to_string(), TickUpdate::Trade { price: 10.15, size: 300.0, time: 9 }, 200);
    let r = *cache.get("AAPL").unwrap();
    assert_eq!(r.last_price, 10.15);
    assert_eq!(r.last_volume, 300.0);
    assert_eq!(r.last_trade_time, 9);
    assert_eq!(r.ask, Some(10.2));
    assert_eq!(r.cached_at, 200);

    apply_tick(&mut cache, "AAPL".to_string(), TickUpdate::Quote { bid: 10.3, ask: 10.5, mid: 10.4, no_volume: 0.0, time: 11 }, 250);
    let r = *cache.get("AAPL").unwrap();
    assert_eq!(r.last_price, 10.15);
    assert_eq!(r.last_trade_time, 9);
    assert_eq!(r.bid, Some(10.3));

    apply_tick(&mut cache, "AAPL".to_string(), TickUpdate::Aggregate { close: 11.0, volume: 5000.0, time: 60 }, 300);
    let r = *cache.get("AAPL").unwrap();
    assert_eq!(r.bid, None);
    assert_eq!(r.last_price, 11.0);
    assert_eq!(quoted_price(&r), QuotedPrice::Last);

    apply_tick(&mut cache, "MSFT".to_string(), TickUpdate::Trade { price: 400.0, size: 1.0, time: 1 }, 5);
    assert_eq!(cache.len(), 2);
    assert_eq!(cache.get("MSFT").unwrap().bid, None);
}

#[test]
fn cached_prices_serve_for_five_minutes() {
    let sec: u64 = 1_000_000_000;
    assert!(price_is_fresh(0, 299 * sec));
    assert!(!price_is_fresh(0, 300 * sec));
    assert!(price_is_fresh(10 * sec, 5 * sec));
}
