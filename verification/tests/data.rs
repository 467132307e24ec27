use trading_system::data::{
    clean_cache, get_cache_stats, indicator_cache_key, market_data_cache_key, CachedSeries, MarketDataRequest,
    api_key_for_request, articles_or_none, check_daily_answer, count_param, daily_aggregates_url, exchanges_query,
    is_live_source, market_status_label, news_query, smart_data_plan, smart_source_label, DailyDataError, SmartSource,
    tickers_query, DataError, ExchangeInfo, ExchangesResponse, MarketStatusResponse, TickerInfo, TickersResponse,
};
use trading_system::store::{ResponseCache, DATA_CACHE_TTL_NANOS};
use trading_system::market::{ClosedReason, DataSourceStrategy, TradingSession};
use trading_system::polygon::{market_movers_url, market_status_url, ticker_snapshot_url, MarketStatus};

fn status(market: Option<&str>, early: Option<bool>, after: Option<bool>) -> MarketStatusResponse {
    MarketStatusResponse {
        after_hours: after,
        early_hours: early,
        currencies: None,
        crypto: None,
        fx: None,
        indices: None,
        market: market.map(|m| m.to_string()),
        server_time: None,
        stocks: None,
    }
}

#[test]
fn market_status_labels() {
    assert_eq!(market_status_label(&status(Some("open"), None, None)), "OPEN");
    assert_eq!(market_status_label(&status(Some("extended-hours"), Some(true), Some(true))), "PRE-MARKET");
    assert_eq!(market_status_label(&status(Some("extended-hours"), Some(false), Some(true))), "AFTER-HOURS");
    assert_eq!(market_status_label(&status(Some("extended-hours"), None, None)), "EXTENDED-HOURS");
    assert_eq!(market_status_label(&status(Some("closed"), None, None)), "CLOSED");
    assert_eq!(market_status_label(&status(Some("weird"), None, None)), "UNKNOWN");
    assert_eq!(market_status_label(&status(None, None, None)), "UNKNOWN");
}

#[test]
fn request_counts() {
    assert_eq!(count_param(Some("25"), 10), 25);
    assert_eq!(count_param(Some("abc"), 10), 10);
    assert_eq!(count_param(Some("-3"), 5), 5);
    assert_eq!(count_param(None, 5), 5);
}

#[test]
fn api_availability() {
    assert_eq!(api_key_for_request(true, &Some("K".to_string())), Ok("K".to_string()));
    assert_eq!(api_key_for_request(false, &Some("K".to_string())), Err(DataError::Unavailable));
    assert_eq!(api_key_for_request(true, &None), Err(DataError::Unavailable));
    assert_eq!(DataError::Unavailable.message(), "Polygon.io not available - check configuration and API key");
}

fn pairs(v: &[(&str, &str)]) -> Vec<(String, String)> {
    v.iter().map(|(a, b)| (a.to_string(), b.to_string())).collect()
}

#[test]
fn request_queries() {
    assert_eq!(
        news_query("K", 5, Some("AAPL")),
        pairs(&[("apikey", "K"), ("limit", "5"), ("order", "desc"), ("ticker", "AAPL")])
    );
    assert_eq!(news_query("K", 12, None), pairs(&[("apikey", "K"), ("limit", "12"), ("order", "desc")]));
    assert_eq!(
        tickers_query("K", 100),
        pairs(&[("apikey", "K"), ("market", "stocks"), ("active", "true"), ("limit", "100"), ("order", "asc")])
    );
    assert_eq!(
        exchanges_query("K"),
        pairs(&[("apikey", "K"), ("market", "stocks"), ("asset_class", "stocks")])
    );
}

#[test]
fn answers_without_lists_are_empty() {
    let t = TickersResponse { status: "OK".to_string(), request_id: None, count: None, next_url: None, results: None };
    assert!(t.into_results().is_empty());
    let info = TickerInfo {
        ticker: Some("AAPL".to_string()),
        name: None,
        market: None,
        locale: None,
        primary_exchange: None,
        ticker_type: None,
        active: Some(true),
        currency_name: None,
        cik: None,
        composite_figi: None,
        share_class_figi: None,
    };
    let t = TickersResponse { status: "OK".to_string(), request_id: None, count: Some(1), next_url: None, results: Some(vec![info]) };
    assert_eq!(t.into_results().len(), 1);
    let ex = ExchangeInfo {
        acronym: None,
        asset_class: None,
        id: Some(1),
        locale: None,
        mic: None,
        name: Some("NYSE".to_string()),
        operating_mic: None,
        participant_id: None,
        exchange_type: None,
        url: None,
    };
    let e = ExchangesResponse { status: "OK".to_string(), request_id: None, count: None, results: Some(vec![ex]) };
    assert_eq!(e.into_results()[0].name.as_deref(), Some("NYSE"));
    assert!(articles_or_none(None).is_empty());
}

#[test]
fn client_endpoints() {
    assert_eq!(market_status_url(), "https://api.polygon.io/v1/marketstatus/now");
    assert_eq!(ticker_snapshot_url("AAPL"), "https://api.polygon.io/v2/snapshot/locale/us/markets/stocks/tickers/AAPL");
    assert_eq!(market_movers_url("gainers"), "https://api.polygon.io/v2/snapshot/locale/us/markets/stocks/gainers");
    let s = MarketStatus { after_hours: false, early_hours: false, market: "open".to_string(), server_time: String::new() };
    assert!(s.is_open());
    let s = MarketStatus { market: "closed".to_string(), ..s };
    assert!(!s.is_open());
}

#[test]
fn daily_bar_requests_and_answers() {
    assert_eq!(
        daily_aggregates_url("AAPL", "2025-09-08"),
        "https://api.polygon.io/v2/aggs/ticker/AAPL/range/1/day/2025-09-08/2025-09-08"
    );
    assert_eq!(check_daily_answer("AAPL", "2025-09-08", "OK", Some(1)), Ok(()));
    assert_eq!(check_daily_answer("AAPL", "2025-09-08", "DELAYED", Some(3)), Ok(()));
    let e = check_daily_answer("AAPL", "2025-09-08", "ERROR", Some(1)).unwrap_err();
    assert_eq!(e.message(), "API returned error status: ERROR");
    let e = check_daily_answer("AAPL", "2025-09-08", "OK", Some(0)).unwrap_err();
    assert_eq!(e.message(), "No daily data available for AAPL on 2025-09-08 (market may be closed)");
    let e = check_daily_answer("AAPL", "2025-09-08", "OK", None).unwrap_err();
    assert_eq!(e, DailyDataError::NoResults { symbol: "AAPL".to_string(), date: "2025-09-08".to_string() });
    assert_eq!(e.message(), "No daily data found for AAPL on 2025-09-08");
}

#[test]
fn market_data_sources_by_status() {
    let open = DataSourceStrategy::RealTime { session: TradingSession::RegularHours, market_date: "2025-09-09".to_string() };
    let (sources, date) = smart_data_plan(&open);
    assert_eq!(sources, vec![SmartSource::Realtime, SmartSource::RestSnapshot, SmartSource::PreviousDayFallback]);
    assert_eq!(date, "2025-09-09");
    assert_eq!(smart_source_label(SmartSource::Realtime, &open), "Real-time WebSocket (RegularHours)");
    assert_eq!(smart_source_label(SmartSource::RestSnapshot, &open), "REST API snapshot (RegularHours)");
    assert_eq!(smart_source_label(SmartSource::PreviousDayFallback, &open), "Previous day fallback");
    assert!(is_live_source(SmartSource::RestSnapshot));
    assert!(!is_live_source(SmartSource::PreviousDayFallback));

    let closed = DataSourceStrategy::PreviousDay {
        summary_date: "2025-08-29".to_string(),
        reason: ClosedReason::Holiday("Market Holiday".to_string()),
    };
    let (sources, date) = smart_data_plan(&closed);
    assert_eq!(sources, vec![SmartSource::DailySummary]);
    assert_eq!(date, "2025-08-29");
    assert_eq!(
        smart_source_label(SmartSource::DailySummary, &closed),
        format!("Daily summary - {:?}", ClosedReason::Holiday("Market Holiday".to_string()))
    );
    let weekend = DataSourceStrategy::PreviousDay { summary_date: "2025-09-05".to_string(), reason: ClosedReason::Weekend };
    assert_eq!(smart_source_label(SmartSource::DailySummary, &weekend), "Daily summary - Weekend");
}

#[test]
fn cache_keys_of_answers() {
    assert_eq!(indicator_cache_key("AAPL", CachedSeries::Sma, 50, "day", "2024-01-02"), "AAPL:sma:50:day:2024-01-02");
    assert_eq!(indicator_cache_key("MSFT", CachedSeries::Ema, 9, "minute", ""), "MSFT:ema:9:minute:");
    assert_eq!(indicator_cache_key("TSLA", CachedSeries::Rsi, 14, "day", "x"), "TSLA:rsi:14:day:x");
    assert_eq!(market_data_cache_key(&MarketDataRequest::Movers("gainers".to_string())), "market_movers:gainers");
    assert_eq!(market_data_cache_key(&MarketDataRequest::PreviousDay("AAPL".to_string())), "AAPL:prev_day");
    assert_eq!(market_data_cache_key(&MarketDataRequest::FullSnapshot), "full_market_snapshot");
    assert_eq!(
        market_data_cache_key(&MarketDataRequest::DailySummary("2024-01-02".to_string())),
        "daily_market_summary:2024-01-02"
    );
}

#[test]
fn both_caches_cleaned_and_counted() {
    let sec: u64 = 1_000_000_000;
    let mut ind: ResponseCache<u32> = ResponseCache::new(DATA_CACHE_TTL_NANOS);
    let mut md: ResponseCache<String> = ResponseCache::new(DATA_CACHE_TTL_NANOS);
    ind.put("AAPL:sma:50:day:2024-01-02".to_string(), 1, 0);
    ind.put("AAPL:ema:50:day:2024-01-02".to_string(), 2, 200 * sec);
    md.put("full_market_snapshot".to_string(), "s".to_string(), 0);
    let st = get_cache_stats(&ind, &md);
    assert_eq!(st.indicator_entries, 2);
    assert_eq!(st.market_data_entries, 1);
    assert_eq!(st.cache_ttl_seconds, 300);
    assert_eq!(clean_cache(&mut ind, &mut md, 400 * sec), 2);
    let st = get_cache_stats(&ind, &md);
    assert_eq!(st.indicator_entries, 1);
    assert_eq!(st.market_data_entries, 0);
}
