//! The reference data served by the market-data API (market status, news,
//! tickers, exchanges), the requests that ask for it, how its answers are
//! read, and the keys under which they are cached.
use vstd::prelude::*;
use vstd::string::*;
use crate::market::{ClosedReason, ClosedReasonView, DataSourceStrategy, DataSourceView, TradingSession};
use crate::text::{parse_unsigned, parse_unsigned_spec, same_text, u64_to_decimal, decimal_of};
use crate::store::{ResponseCache, servable_part};

verus! {

/// The status of one market group in a market status answer.
#[derive(Debug, Clone)]
pub struct MarketStatus {
    pub market: Option<String>,
}

/// The market status answer.
#[derive(Debug, Clone)]
pub struct MarketStatusResponse {
    pub after_hours: Option<bool>,
    pub early_hours: Option<bool>,
    pub currencies: Option<MarketStatus>,
    pub crypto: Option<MarketStatus>,
    pub fx: Option<MarketStatus>,
    pub indices: Option<MarketStatus>,
    pub market: Option<String>,
    pub server_time: Option<String>,
    pub stocks: Option<MarketStatus>,
}

/// The publisher of a news article.
#[derive(Debug, Clone)]
pub struct NewsPublisher {
    pub name: Option<String>,
    pub homepage_url: Option<String>,
    pub logo_url: Option<String>,
    pub favicon_url: Option<String>,
}

/// A sentiment reading of a news article for one ticker.
#[derive(Debug, Clone)]
pub struct NewsInsight {
    pub ticker: Option<String>,
    pub sentiment: Option<String>,
    pub sentiment_reasoning: Option<String>,
}

/// A news article.
#[derive(Debug, Clone)]
pub struct NewsArticle {
    pub id: Option<String>,
    pub publisher: Option<NewsPublisher>,
    pub title: Option<String>,
    pub author: Option<String>,
    pub published_utc: Option<String>,
    pub article_url: Option<String>,
    pub tickers: Option<Vec<String>>,
    pub image_url: Option<String>,
    pub description: Option<String>,
    pub keywords: Option<Vec<String>>,
    pub insights: Option<Vec<NewsInsight>>,
}

/// One listed ticker.
#[derive(Debug, Clone)]
pub struct TickerInfo {
    pub ticker: Option<String>,
    pub name: Option<String>,
    pub market: Option<String>,
    pub locale: Option<String>,
    pub primary_exchange: Option<String>,
    pub ticker_type: Option<String>,
    pub active: Option<bool>,
    pub currency_name: Option<String>,
    pub cik: Option<String>,
    pub composite_figi: Option<String>,
    pub share_class_figi: Option<String>,
}

/// The tickers answer.
#[derive(Debug, Clone)]
pub struct TickersResponse {
    pub status: String,
    pub request_id: Option<String>,
    pub count: Option<u32>,
    pub next_url: Option<String>,
    pub results: Option<Vec<TickerInfo>>,
}

/// One stock exchange.
#[derive(Debug, Clone)]
pub struct ExchangeInfo {
    pub acronym: Option<String>,
    pub asset_class: Option<String>,
    pub id: Option<i32>,
    pub locale: Option<String>,
    pub mic: Option<String>,
    pub name: Option<String>,
    pub operating_mic: Option<String>,
    pub participant_id: Option<String>,
    pub exchange_type: Option<String>,
    pub url: Option<String>,
}

/// The exchanges answer.
#[derive(Debug, Clone)]
pub struct ExchangesResponse {
    pub status: String,
    pub request_id: Option<String>,
    pub count: Option<u32>,
    pub results: Option<Vec<ExchangeInfo>>,
}

impl TickersResponse {
    /// The tickers in the answer; none when it carries no list.
    pub fn into_results(self) -> (r: Vec<TickerInfo>)
        ensures
            self.results matches Some(v) ==> r@ == v@,
            self.results is None ==> r@.len() == 0,
    {
        match self.results {
            Some(v) => v,
            None => Vec::new(),
        }
    }
}

impl ExchangesResponse {
    /// The exchanges in the answer; none when it carries no list.
    pub fn into_results(self) -> (r: Vec<ExchangeInfo>)
        ensures
            self.results matches Some(v) ==> r@ == v@,
            self.results is None ==> r@.len() == 0,
    {
        match self.results {
            Some(v) => v,
            None => Vec::new(),
        }
    }
}

/// The news articles of an answer; none when it carries no list.
pub fn articles_or_none(results: Option<Vec<NewsArticle>>) -> (r: Vec<NewsArticle>)
    ensures
        results matches Some(v) ==> r@ == v@,
        results is None ==> r@.len() == 0,
{
    match results {
        Some(v) => v,
        None => Vec::new(),
    }
}

/// How the market status answer is shown: open; pre-market, after-hours or
/// extended hours while the market is in extended hours; closed; or unknown.
pub open spec fn status_label_of(market: Option<Seq<char>>, early_hours: Option<bool>, after_hours: Option<bool>) -> Seq<char> {
    if market == Some("open"@) {
        "OPEN"@
    } else if market == Some("extended-hours"@) {
        if early_hours == Some(true) {
            "PRE-MARKET"@
        } else if after_hours == Some(true) {
            "AFTER-HOURS"@
        } else {
            "EXTENDED-HOURS"@
        }
    } else if market == Some("closed"@) {
        "CLOSED"@
    } else {
        "UNKNOWN"@
    }
}

/// The label of a market status answer (see `status_label_of`).
pub fn market_status_label(response: &MarketStatusResponse) -> (r: &'static str)
    ensures
        r@ == status_label_of(
            match response.market {
                Some(m) => Some(m@),
                None => None,
            },
            response.early_hours,
            response.after_hours,
        ),
{
    proof {
        reveal_strlit("open");
        reveal_strlit("extended-hours");
        reveal_strlit("closed");
    }
    match &response.market {
        Some(m) => {
            if same_text(m.as_str(), "open") {
                "OPEN"
            } else if same_text(m.as_str(), "extended-hours") {
                if response.early_hours == Some(true) {
                    "PRE-MARKET"
                } else if response.after_hours == Some(true) {
                    "AFTER-HOURS"
                } else {
                    "EXTENDED-HOURS"
                }
            } else if same_text(m.as_str(), "closed") {
                "CLOSED"
            } else {
                "UNKNOWN"
            }
        },
        None => "UNKNOWN",
    }
}

/// A request's count parameter: the given text read as a `u32`, or the
/// default where it is missing or does not read as one.
pub fn count_param(value: Option<&str>, default: u32) -> (r: u32)
    ensures
        r == (match value {
            Some(t) => match parse_unsigned_spec(t@, u32::MAX as nat) {
                Some(n) => n,
                None => default as nat,
            },
            None => default as nat,
        }),
{
    match value {
        Some(t) => match parse_unsigned(t, u32::MAX as u64) {
            Some(n) => n as u32,
            None => default,
        },
        None => default,
    }
}

/// Why the market-data API cannot be asked.
#[derive(Debug, Clone, Copy, PartialEq, Eq, Structural)]
pub enum DataError {
    /// The API is not enabled or has no key.
    Unavailable,
}

impl DataError {
    /// The error's text.
    pub fn message(&self) -> (r: &'static str)
        ensures
            r@ == "Polygon.io not available - check configuration and API key"@,
    {
        match self {
            DataError::Unavailable => "Polygon.io not available - check configuration and API key",
        }
    }
}

/// The API key to ask with, when the API is enabled and has one.
pub fn api_key_for_request(polygon_enabled: bool, api_key: &Option<String>) -> (r: Result<String, DataError>)
    ensures
        polygon_enabled && api_key is Some ==> (r matches Ok(k) && k@ == api_key->0@),
        !(polygon_enabled && api_key is Some) ==> r == Err::<String, DataError>(DataError::Unavailable),
{
    if !polygon_enabled {
        return Err(DataError::Unavailable);
    }
    match api_key {
        Some(k) => Ok(k.clone()),
        None => Err(DataError::Unavailable),
    }
}

/// The views of the query pairs of a request.
pub open spec fn pairs_of(v: Seq<(String, String)>) -> Seq<(Seq<char>, Seq<char>)> {
    v.map_values(|p: (String, String)| (p.0@, p.1@))
}

fn pair(k: &str, v: &str) -> (r: (String, String))
    ensures
        r.0@ == k@,
        r.1@ == v@,
{
    (String::from_str(k), String::from_str(v))
}

/// The query of a news request: the key, the count, newest first, and the
/// ticker when one is asked for.
pub fn news_query(api_key: &str, limit: u32, ticker: Option<&str>) -> (r: Vec<(String, String)>)
    ensures
        pairs_of(r@) == (seq![("apikey"@, api_key@), ("limit"@, decimal_of(limit as nat)), ("order"@, "desc"@)]
            + match ticker {
                Some(t) => seq![("ticker"@, t@)],
                None => Seq::empty(),
            }),
{
    let limit_text = u64_to_decimal(limit as u64);
    let mut q: Vec<(String, String)> = Vec::new();
    q.push(pair("apikey", api_key));
    q.push(pair("limit", limit_text.as_str()));
    q.push(pair("order", "desc"));
    match ticker {
        Some(t) => q.push(pair("ticker", t)),
        None => {},
    }
    assert(pairs_of(q@) =~= seq![("apikey"@, api_key@), ("limit"@, decimal_of(limit as nat)), ("order"@, "desc"@)]
        + match ticker {
            Some(t) => seq![("ticker"@, t@)],
            None => Seq::empty(),
        });
    q
}

/// The query of a tickers request: active stocks, in ascending order, up to
/// `limit` of them.
pub fn tickers_query(api_key: &str, limit: u32) -> (r: Vec<(String, String)>)
    ensures
        pairs_of(r@) == seq![("apikey"@, api_key@), ("market"@, "stocks"@), ("active"@, "true"@),
            ("limit"@, decimal_of(limit as nat)), ("order"@, "asc"@)],
{
    let limit_text = u64_to_decimal(limit as u64);
    let mut q: Vec<(String, String)> = Vec::new();
    q.push(pair("apikey", api_key));
    q.push(pair("market", "stocks"));
    q.push(pair("active", "true"));
    q.push(pair("limit", limit_text.as_str()));
    q.push(pair("order", "asc"));
    assert(pairs_of(q@) =~= seq![("apikey"@, api_key@), ("market"@, "stocks"@), ("active"@, "true"@),
        ("limit"@, decimal_of(limit as nat)), ("order"@, "asc"@)]);
    q
}

/// The query of an exchanges request: stock exchanges.
pub fn exchanges_query(api_key: &str) -> (r: Vec<(String, String)>)
    ensures
        pairs_of(r@) == seq![("apikey"@, api_key@), ("market"@, "stocks"@), ("asset_class"@, "stocks"@)],
{
    let mut q: Vec<(String, String)> = Vec::new();
    q.push(pair("apikey", api_key));
    q.push(pair("market", "stocks"));
    q.push(pair("asset_class", "stocks"));
    assert(pairs_of(q@) =~= seq![("apikey"@, api_key@), ("market"@, "stocks"@), ("asset_class"@, "stocks"@)]);
    q
}

// ----- Cached answers -----

/// The indicators whose answers are cached.
#[derive(Debug, Clone, Copy, PartialEq, Eq, Structural)]
pub enum CachedSeries {
    Sma,
    Ema,
    Rsi,
}

/// The name of a cached indicator in its cache key.
pub open spec fn series_name(series: CachedSeries) -> Seq<char> {
    match series {
        CachedSeries::Sma => "sma"@,
        CachedSeries::Ema => "ema"@,
        CachedSeries::Rsi => "rsi"@,
    }
}

/// The cache key of an indicator answer: `SYMBOL:NAME:WINDOW:TIMESPAN:TIMESTAMP`.
pub fn indicator_cache_key(symbol: &str, series: CachedSeries, window: u32, timespan: &str, timestamp: &str) -> (r: String)
    ensures
        r@ == symbol@ + ":"@ + series_name(series) + ":"@ + decimal_of(window as nat) + ":"@ + timespan@ + ":"@
            + timestamp@,
{
    let mut k = String::from_str(symbol);
    k.append(":");
    match series {
        CachedSeries::Sma => k.append("sma"),
        CachedSeries::Ema => k.append("ema"),
        CachedSeries::Rsi => k.append("rsi"),
    }
    k.append(":");
    let w = u64_to_decimal(window as u64);
    k.append(w.as_str());
    k.append(":");
    k.append(timespan);
    k.append(":");
    k.append(timestamp);
    k
}

/// The market-data answers that are cached, by what was asked.
#[derive(Debug, Clone, PartialEq, Eq)]
pub enum MarketDataRequest {
    /// The top movers in a direction ("gainers" or "losers").
    Movers(String),
    /// A symbol's previous day.
    PreviousDay(String),
    /// The snapshot of the whole market.
    FullSnapshot,
    /// The market summary of a day.
    DailySummary(String),
}

/// The cache key of a market-data answer.
pub open spec fn market_data_key_of(request: MarketDataRequest) -> Seq<char> {
    match request {
        MarketDataRequest::Movers(direction) => "market_movers:"@ + direction@,
        MarketDataRequest::PreviousDay(symbol) => symbol@ + ":prev_day"@,
        MarketDataRequest::FullSnapshot => "full_market_snapshot"@,
        MarketDataRequest::DailySummary(date) => "daily_market_summary:"@ + date@,
    }
}

/// The cache key of a market-data answer (see `market_data_key_of`).
pub fn market_data_cache_key(request: &MarketDataRequest) -> (r: String)
    ensures
        r@ == market_data_key_of(*request),
{
    match request {
        MarketDataRequest::Movers(direction) => {
            let mut k = String::from_str("market_movers:");
            k.append(direction.as_str());
            k
        },
        MarketDataRequest::PreviousDay(symbol) => {
            let mut k = symbol.clone();
            k.append(":prev_day");
            k
        },
        MarketDataRequest::FullSnapshot => String::from_str("full_market_snapshot"),
        MarketDataRequest::DailySummary(date) => {
            let mut k = String::from_str("daily_market_summary:");
            k.append(date.as_str());
            k
        },
    }
}

/// The sizes of the indicator and market-data caches, and their time to
/// live in seconds.
#[derive(Debug, Clone, Copy, PartialEq, Eq, Structural)]
pub struct CacheStats {
    pub indicator_entries: usize,
    pub market_data_entries: usize,
    pub cache_ttl_seconds: u64,
}

/// The figures of the two answer caches; both live as long, so the time to
/// live is the indicator cache's.
pub fn get_cache_stats<I, M>(indicators: &ResponseCache<I>, market_data: &ResponseCache<M>) -> (r: CacheStats)
    requires
        indicators.wf(),
        market_data.wf(),
    ensures
        r.indicator_entries == indicators@.dom().len(),
        r.market_data_entries == market_data@.dom().len(),
        r.cache_ttl_seconds == indicators.ttl() / 1_000_000_000,
{
    CacheStats {
        indicator_entries: indicators.len(),
        market_data_entries: market_data.len(),
        cache_ttl_seconds: indicators.ttl_seconds(),
    }
}

/// Removes from both caches the answers that are no longer served at `now`,
/// and returns how many were removed in all.
pub fn clean_cache<I, M>(indicators: &mut ResponseCache<I>, market_data: &mut ResponseCache<M>, now: u64) -> (r: usize)
    requires
        old(indicators).wf(),
        old(market_data).wf(),
        old(indicators)@.dom().len() + old(market_data)@.dom().len() <= usize::MAX,
    ensures
        final(indicators).wf(),
        final(market_data).wf(),
        final(indicators).ttl() == old(indicators).ttl(),
        final(market_data).ttl() == old(market_data).ttl(),
        final(indicators)@ == servable_part(old(indicators)@, old(indicators).ttl(), now),
        final(market_data)@ == servable_part(old(market_data)@, old(market_data).ttl(), now),
        r == (old(indicators)@.dom().len() - final(indicators)@.dom().len()) + (old(market_data)@.dom().len()
            - final(market_data)@.dom().len()),
{
    let a = indicators.clean(now);
    let b = market_data.clean(now);
    a + b
}

// ----- Daily bars -----

/// The daily-bar endpoint for one symbol and day.
pub fn daily_aggregates_url(symbol: &str, date: &str) -> (r: String)
    ensures
        r@ == crate::polygon::base_url() + "/v2/aggs/ticker/"@ + symbol@ + "/range/1/day/"@ + date@ + "/"@ + date@,
{
    let mut u = String::from_str("https://api.polygon.io");
    u.append("/v2/aggs/ticker/");
    u.append(symbol);
    u.append("/range/1/day/");
    u.append(date);
    u.append("/");
    u.append(date);
    u
}

/// Why a daily-bar answer gives no bar.
#[derive(Debug, Clone, PartialEq, Eq)]
pub enum DailyDataError {
    /// The answer's status is neither OK nor DELAYED.
    BadStatus(String),
    /// The answer lists no bar.
    NoBars { symbol: String, date: String },
    /// The answer carries no list.
    NoResults { symbol: String, date: String },
}

impl DailyDataError {
    /// The error's text.
    pub fn message(&self) -> (r: String)
        ensures
            self matches DailyDataError::BadStatus(st) ==> r@ == "API returned error status: "@ + st@,
            self matches DailyDataError::NoBars { symbol, date } ==> r@ == "No daily data available for "@ + symbol@
                + " on "@ + date@ + " (market may be closed)"@,
            self matches DailyDataError::NoResults { symbol, date } ==> r@ == "No daily data found for "@ + symbol@
                + " on "@ + date@,
    {
        match self {
            DailyDataError::BadStatus(st) => {
                let mut m = String::from_str("API returned error status: ");
                m.append(st.as_str());
                m
            },
            DailyDataError::NoBars { symbol, date } => {
                let mut m = String::from_str("No daily data available for ");
                m.append(symbol.as_str());
                m.append(" on ");
                m.append(date.as_str());
                m.append(" (market may be closed)");
                m
            },
            DailyDataError::NoResults { symbol, date } => {
                let mut m = String::from_str("No daily data found for ");
                m.append(symbol.as_str());
                m.append(" on ");
                m.append(date.as_str());
                m
            },
        }
    }
}

/// A daily-bar answer is usable when its status is OK or DELAYED (delayed
/// data is expected on the basic plan) and it lists at least one bar; the
/// first bar is then the day's.
pub fn check_daily_answer(symbol: &str, date: &str, status: &str, bar_count: Option<usize>) -> (r: Result<(), DailyDataError>)
    ensures
        !(status@ == "OK"@ || status@ == "DELAYED"@) ==> (r matches Err(DailyDataError::BadStatus(st)) && st@ == status@),
        (status@ == "OK"@ || status@ == "DELAYED"@) ==> match bar_count {
            None => r matches Err(DailyDataError::NoResults { symbol: s, date: d }) && s@ == symbol@ && d@ == date@,
            Some(n) => if n == 0 {
                r matches Err(DailyDataError::NoBars { symbol: s, date: d }) && s@ == symbol@ && d@ == date@
            } else {
                r is Ok
            },
        },
{
    if !(same_text(status, "OK") || same_text(status, "DELAYED")) {
        return Err(DailyDataError::BadStatus(String::from_str(status)));
    }
    match bar_count {
        None => Err(DailyDataError::NoResults { symbol: String::from_str(symbol), date: String::from_str(date) }),
        Some(n) => {
            if n == 0 {
                Err(DailyDataError::NoBars { symbol: String::from_str(symbol), date: String::from_str(date) })
            } else {
                Ok(())
            }
        },
    }
}

// ----- Choosing where market data comes from -----

/// A place market data is taken from.
#[derive(Debug, Clone, Copy, PartialEq, Eq, Structural)]
pub enum SmartSource {
    /// The streaming cache.
    Realtime,
    /// The snapshot endpoint.
    RestSnapshot,
    /// The previous day's bar, when the current price cannot be had.
    PreviousDayFallback,
    /// The previous day's bar as the summary of a closed market.
    DailySummary,
}

/// The places tried, in order, for a market status: while open, the stream,
/// then the snapshot, then the previous day; while closed, the summary.
pub open spec fn smart_sources_of(strategy: DataSourceView) -> Seq<SmartSource> {
    match strategy {
        DataSourceView::RealTime { .. } => seq![SmartSource::Realtime, SmartSource::RestSnapshot, SmartSource::PreviousDayFallback],
        DataSourceView::PreviousDay { .. } => seq![SmartSource::DailySummary],
    }
}

/// The places tried for market data (see `smart_sources_of`) and the market
/// date the data belongs to.
pub fn smart_data_plan(strategy: &DataSourceStrategy) -> (r: (Vec<SmartSource>, String))
    ensures
        r.0@ == smart_sources_of(strategy@),
        r.1@ == match strategy@ {
            DataSourceView::RealTime { market_date, .. } => market_date,
            DataSourceView::PreviousDay { summary_date, .. } => summary_date,
        },
{
    match strategy {
        DataSourceStrategy::RealTime { market_date, .. } => {
            let v = vec![SmartSource::Realtime, SmartSource::RestSnapshot, SmartSource::PreviousDayFallback];
            assert(v@ =~= smart_sources_of(strategy@));
            (v, market_date.clone())
        },
        DataSourceStrategy::PreviousDay { summary_date, .. } => {
            let v = vec![SmartSource::DailySummary];
            assert(v@ =~= smart_sources_of(strategy@));
            (v, summary_date.clone())
        },
    }
}

/// Whether data from a place is live.
pub fn is_live_source(source: SmartSource) -> (r: bool)
    ensures
        r == (source == SmartSource::Realtime || source == SmartSource::RestSnapshot),
{
    match source {
        SmartSource::Realtime => true,
        SmartSource::RestSnapshot => true,
        _ => false,
    }
}

/// The name of a session in a source label.
pub open spec fn session_name(s: TradingSession) -> Seq<char> {
    match s {
        TradingSession::PreMarket => "PreMarket"@,
        TradingSession::RegularHours => "RegularHours"@,
        TradingSession::AfterHours => "AfterHours"@,
        TradingSession::Closed => "Closed"@,
    }
}

/// The name of a closure reason in a source label.
pub open spec fn reason_name(r: ClosedReasonView) -> Seq<char> {
    match r {
        ClosedReasonView::OutsideHours => "OutsideHours"@,
        ClosedReasonView::Weekend => "Weekend"@,
        ClosedReasonView::Holiday(name) => "Holiday(\""@ + name + "\")"@,
    }
}

/// The label of market data taken from a place, under a market status.
pub open spec fn source_label_of(source: SmartSource, strategy: DataSourceView) -> Seq<char> {
    match source {
        SmartSource::Realtime => "Real-time WebSocket ("@ + match strategy {
            DataSourceView::RealTime { session, .. } => session_name(session),
            _ => session_name(TradingSession::Closed),
        } + ")"@,
        SmartSource::RestSnapshot => "REST API snapshot ("@ + match strategy {
            DataSourceView::RealTime { session, .. } => session_name(session),
            _ => session_name(TradingSession::Closed),
        } + ")"@,
        SmartSource::PreviousDayFallback => "Previous day fallback"@,
        SmartSource::DailySummary => "Daily summary - "@ + match strategy {
            DataSourceView::PreviousDay { reason, .. } => reason_name(reason),
            _ => reason_name(ClosedReasonView::OutsideHours),
        },
    }
}

fn session_text(s: TradingSession) -> (r: &'static str)
    ensures
        r@ == session_name(s),
{
    match s {
        TradingSession::PreMarket => "PreMarket",
        TradingSession::RegularHours => "RegularHours",
        TradingSession::AfterHours => "AfterHours",
        TradingSession::Closed => "Closed",
    }
}

/// The label of market data taken from a place (see `source_label_of`).
pub fn smart_source_label(source: SmartSource, strategy: &DataSourceStrategy) -> (r: String)
    ensures
        r@ == source_label_of(source, strategy@),
{
    match source {
        SmartSource::Realtime | SmartSource::RestSnapshot => {
            let session = match strategy {
                DataSourceStrategy::RealTime { session, .. } => *session,
                _ => TradingSession::Closed,
            };
            let mut m = match source {
                SmartSource::Realtime => String::from_str("Real-time WebSocket ("),
                _ => String::from_str("REST API snapshot ("),
            };
            m.append(session_text(session));
            m.append(")");
            m
        },
        SmartSource::PreviousDayFallback => String::from_str("Previous day fallback"),
        SmartSource::DailySummary => {
            let mut m = String::from_str("Daily summary - ");
            match strategy {
                DataSourceStrategy::PreviousDay { reason, .. } => match reason {
                    ClosedReason::OutsideHours => m.append("OutsideHours"),
                    ClosedReason::Weekend => m.append("Weekend"),
                    ClosedReason::Holiday(name) => {
                        m.append("Holiday(\"");
                        m.append(name.as_str());
                        m.append("\")");
                    },
                },
                _ => m.append("OutsideHours"),
            }
            m
        },
    }
}

} // verus!
