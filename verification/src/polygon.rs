//! The direct client of the market-data API: where its endpoints are and how
//! its market status answer reads.
use vstd::prelude::*;
use vstd::string::*;
use crate::text::same_text;

verus! {

/// The market status answer of the client.
#[derive(Debug, Clone)]
pub struct MarketStatus {
    pub after_hours: bool,
    pub early_hours: bool,
    pub market: String,
    pub server_time: String,
}

impl MarketStatus {
    /// Whether the answer says the market is open.
    pub fn is_open(&self) -> (r: bool)
        ensures
            r == (self.market@ == "open"@),
    {
        same_text(self.market.as_str(), "open")
    }
}

/// The address of the API.
pub open spec fn base_url() -> Seq<char> {
    "https://api.polygon.io"@
}

/// The market status endpoint.
pub fn market_status_url() -> (r: String)
    ensures
        r@ == base_url() + "/v1/marketstatus/now"@,
{
    let mut u = String::from_str("https://api.polygon.io");
    u.append("/v1/marketstatus/now");
    u
}

/// The snapshot endpoint of one ticker.
pub fn ticker_snapshot_url(symbol: &str) -> (r: String)
    ensures
        r@ == base_url() + "/v2/snapshot/locale/us/markets/stocks/tickers/"@ + symbol@,
{
    let mut u = String::from_str("https://api.polygon.io");
    u.append("/v2/snapshot/locale/us/markets/stocks/tickers/");
    u.append(symbol);
    u
}

/// The endpoint of the top movers in one direction (`gainers` or `losers`).
pub fn market_movers_url(direction: &str) -> (r: String)
    ensures
        r@ == base_url() + "/v2/snapshot/locale/us/markets/stocks/"@ + direction@,
{
    let mut u = String::from_str("https://api.polygon.io");
    u.append("/v2/snapshot/locale/us/markets/stocks/");
    u.append(direction);
    u
}

} // verus!
