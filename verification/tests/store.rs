use trading_system::store::{group_positions, KeyedStore, ResponseCache, TimedCache, DATA_CACHE_TTL_NANOS};

#[test]
fn keyed_store_insert_get_remove() {
    let mut s: KeyedStore<i32> = KeyedStore::new();
    assert_eq!(s.insert("a".to_string(), 1), None);
    assert_eq!(s.insert("b".to_string(), 2), None);
    assert_eq!(s.insert("a".to_string(), 3), Some(1));
    assert_eq!(s.get("a"), Some(&3));
    assert!(s.contains_key("b"));
    assert_eq!(s.len(), 2);
    assert_eq!(s.keys(), vec!["a".to_string(), "b".to_string()]);
    assert_eq!(s.remove("a"), Some(3));
    assert_eq!(s.remove("a"), None);
    assert_eq!(s.get("a"), None);
    assert_eq!(s.key_at(0), "b");
    assert_eq!(*s.value_at(0), 2);
}

#[test]
fn timed_cache_serves_fresh_entries_only() {
    let sec: u64 = 1_000_000_000;
    let mut c: TimedCache<u32> = TimedCache::new(30 * sec, 0);
    c.update("AAPL".to_string(), 7, 0);
    assert_eq!(c.get_fresh("AAPL", 10 * sec), Some(&7));
    assert_eq!(c.get_fresh("AAPL", 30 * sec), Some(&7));
    assert_eq!(c.get_fresh("AAPL", 31 * sec), None);
    assert_eq!(c.get_fresh("MSFT", 0), None);
    let st = c.stats(31 * sec);
    assert_eq!(st.total_symbols, 1);
    assert_eq!(st.total_access_count, 2);
    assert_eq!(st.expired_count, 1);
}

#[test]
fn timed_cache_cleanup_runs_once_a_minute() {
    let sec: u64 = 1_000_000_000;
    let mut c: TimedCache<u32> = TimedCache::new(10 * sec, 0);
    c.update("A".to_string(), 1, 0);
    c.update("B".to_string(), 2, 55 * sec);
    assert_eq!(c.cleanup_expired(59 * sec), 0);
    assert_eq!(c.cleanup_expired(61 * sec), 1);
    assert_eq!(c.get_fresh("A", 61 * sec), None);
    assert_eq!(c.get_fresh("B", 62 * sec), Some(&2));
    // The next clean-up waits another minute.
    assert_eq!(c.cleanup_expired(100 * sec), 0);
}

#[test]
fn positions_grouped_by_key() {
    let keys = vec!["AAPL".to_string(), "MSFT".to_string(), "AAPL".to_string(), "TSLA".to_string(), "AAPL".to_string()];
    let g = group_positions(&keys);
    assert_eq!(g.len(), 3);
    assert_eq!(g.get("AAPL"), Some(&vec![0, 2, 4]));
    assert_eq!(g.get("MSFT"), Some(&vec![1]));
    assert_eq!(g.get("NVDA"), None);
    assert_eq!(group_positions(&Vec::new()).len(), 0);
}

#[test]
fn response_cache_serves_until_ttl() {
    let sec: u64 = 1_000_000_000;
    let mut c: ResponseCache<u32> = ResponseCache::new(DATA_CACHE_TTL_NANOS);
    assert_eq!(c.ttl_seconds(), 300);
    c.put("AAPL:prev_day".to_string(), 5, 0);
    assert_eq!(c.get_fresh("AAPL:prev_day", 299 * sec), Some(&5));
    // Exactly five minutes later the answer is no longer served.
    assert_eq!(c.get_fresh("AAPL:prev_day", 300 * sec), None);
    assert_eq!(c.get_fresh("MSFT:prev_day", 0), None);
    c.put("AAPL:prev_day".to_string(), 6, 300 * sec);
    assert_eq!(c.get_fresh("AAPL:prev_day", 301 * sec), Some(&6));
    assert_eq!(c.len(), 1);
}

#[test]
fn response_cache_clean_removes_stale_answers() {
    let sec: u64 = 1_000_000_000;
    let mut c: ResponseCache<u32> = ResponseCache::new(10 * sec);
    c.put("a".to_string(), 1, 0);
    c.put("b".to_string(), 2, 5 * sec);
    c.put("c".to_string(), 3, 20 * sec);
    assert_eq!(c.clean(15 * sec), 2);
    assert_eq!(c.len(), 1);
    assert_eq!(c.get_fresh("c", 21 * sec), Some(&3));
    assert_eq!(c.clean(21 * sec), 0);
}
