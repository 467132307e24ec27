//! The real-time cache of the latest trade, quote and minute bar of each
//! symbol, kept up to date from the market-data stream. Prices and volumes
//! are of any type `P`: the cache moves them, it does not compute with them.
use vstd::prelude::*;
use crate::store::{elapsed, KeyedStore};

verus! {

/// What the cache keeps of a symbol. Times are nanoseconds on a monotonic
/// clock; the trade time is the stream's timestamp.
#[derive(Debug, Clone, Copy, PartialEq, Eq)]
pub struct TickerRecord<P> {
    pub last_price: P,
    pub last_volume: P,
    pub bid: Option<P>,
    pub ask: Option<P>,
    pub last_trade_time: i64,
    pub cached_at: u64,
}

/// A market-data message as it bears on the cache.
#[derive(Debug, Clone, Copy, PartialEq, Eq)]
pub enum TickUpdate<P> {
    /// A minute bar: its close, volume and time.
    Aggregate { close: P, volume: P, time: i64 },
    /// A quote: bid and ask, their mid price and the volume a new record
    /// starts with.
    Quote { bid: P, ask: P, mid: P, no_volume: P, time: i64 },
    /// A trade: its price, size and time.
    Trade { price: P, size: P, time: i64 },
}

/// The cache after an update for `symbol` at `now`: a minute bar replaces
/// the record; a quote sets the bid and ask of a record (starting one at the
/// mid price if there is none); a trade sets the last price, volume and time
/// (starting a record if there is none). Every update marks the record as
/// cached at `now`.
pub open spec fn after_tick<P>(m: Map<Seq<char>, TickerRecord<P>>, symbol: Seq<char>, u: TickUpdate<P>, now: u64) -> Map<Seq<char>, TickerRecord<P>> {
    match u {
        TickUpdate::Aggregate { close, volume, time } => m.insert(
            symbol,
            TickerRecord { last_price: close, last_volume: volume, bid: None, ask: None, last_trade_time: time, cached_at: now },
        ),
        TickUpdate::Quote { bid, ask, mid, no_volume, time } => if m.contains_key(symbol) {
            m.insert(symbol, TickerRecord { bid: Some(bid), ask: Some(ask), cached_at: now, ..m[symbol] })
        } else {
            m.insert(
                symbol,
                TickerRecord { last_price: mid, last_volume: no_volume, bid: Some(bid), ask: Some(ask), last_trade_time: time, cached_at: now },
            )
        },
        TickUpdate::Trade { price, size, time } => if m.contains_key(symbol) {
            m.insert(symbol, TickerRecord { last_price: price, last_volume: size, last_trade_time: time, cached_at: now, ..m[symbol] })
        } else {
            m.insert(
                symbol,
                TickerRecord { last_price: price, last_volume: size, bid: None, ask: None, last_trade_time: time, cached_at: now },
            )
        },
    }
}

/// Applies a market-data update for `symbol` at `now` (see `after_tick`).
pub fn apply_tick<P>(cache: &mut KeyedStore<TickerRecord<P>>, symbol: String, update: TickUpdate<P>, now: u64)
    requires
        old(cache).wf(),
    ensures
        final(cache).wf(),
        final(cache)@ == after_tick(old(cache)@, symbol@, update, now),
{
    let ghost before = cache@;
    let existing = cache.remove(symbol.as_str());
    let record = match update {
        TickUpdate::Aggregate { close, volume, time } => TickerRecord {
            last_price: close,
            last_volume: volume,
            bid: None,
            ask: None,
            last_trade_time: time,
            cached_at: now,
        },
        TickUpdate::Quote { bid, ask, mid, no_volume, time } => match existing {
            Some(r) => TickerRecord {
                last_price: r.last_price,
                last_volume: r.last_volume,
                bid: Some(bid),
                ask: Some(ask),
                last_trade_time: r.last_trade_time,
                cached_at: now,
            },
            None => TickerRecord {
                last_price: mid,
                last_volume: no_volume,
                bid: Some(bid),
                ask: Some(ask),
                last_trade_time: time,
                cached_at: now,
            },
        },
        TickUpdate::Trade { price, size, time } => match existing {
            Some(r) => TickerRecord {
                last_price: price,
                last_volume: size,
                bid: r.bid,
                ask: r.ask,
                last_trade_time: time,
                cached_at: now,
            },
            None => TickerRecord {
                last_price: price,
                last_volume: size,
                bid: None,
                ask: None,
                last_trade_time: time,
                cached_at: now,
            },
        },
    };
    let _ = cache.insert(symbol, record);
    assert(cache@ =~= after_tick(before, symbol@, update, now));
}

/// How long a cached record serves as the current price: five minutes.
pub const PRICE_FRESHNESS_NANOS: u64 = 300_000_000_000;

/// Whether a record cached at `cached_at` still serves as the current price
/// at `now`: less than five minutes have passed.
pub fn price_is_fresh(cached_at: u64, now: u64) -> (r: bool)
    ensures
        r == (elapsed(now, cached_at) < PRICE_FRESHNESS_NANOS),
{
    !(now >= cached_at && now - cached_at >= PRICE_FRESHNESS_NANOS)
}

/// Which price a record quotes: the mid price when it has both a bid and an
/// ask, else its last price.
#[derive(Debug, Clone, Copy, PartialEq, Eq, Structural)]
pub enum QuotedPrice {
    Mid,
    Last,
}

/// Which price a record quotes (see `QuotedPrice`).
pub fn quoted_price<P>(record: &TickerRecord<P>) -> (r: QuotedPrice)
    ensures
        r == (if record.bid is Some && record.ask is Some { QuotedPrice::Mid } else { QuotedPrice::Last }),
{
    if record.bid.is_some() && record.ask.is_some() {
        QuotedPrice::Mid
    } else {
        QuotedPrice::Last
    }
}

/// A quote never changes the last trade of a symbol that has a record, and a
/// trade never changes its bid and ask.
pub proof fn law_quotes_and_trades_touch_their_own_fields<P>(
    m: Map<Seq<char>, TickerRecord<P>>,
    symbol: Seq<char>,
    bid: P,
    ask: P,
    mid: P,
    no_volume: P,
    price: P,
    size: P,
    time: i64,
    now: u64,
)
    requires
        m.contains_key(symbol),
    ensures
        ({
            let q = after_tick(m, symbol, TickUpdate::Quote { bid, ask, mid, no_volume, time }, now)[symbol];
            &&& q.last_price == m[symbol].last_price
            &&& q.last_volume == m[symbol].last_volume
            &&& q.last_trade_time == m[symbol].last_trade_time
            &&& q.bid == Some(bid) && q.ask == Some(ask)
        }),
        ({
            let t = after_tick(m, symbol, TickUpdate::Trade { price, size, time }, now)[symbol];
            &&& t.bid == m[symbol].bid
            &&& t.ask == m[symbol].ask
            &&& t.last_price == price && t.last_volume == size && t.last_trade_time == time
        }),
{
}

} // verus!
