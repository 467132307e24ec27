//! US stock market calendar and data source selection.
//!
//! - "Open" is any time from 4:00 AM ET (pre-market) to 8:00 PM ET
//!   (after-hours), on a weekday that is not a market holiday.
//! - "Closed" is any time outside that range.
//! - While the market is open the current day's real-time data is used; while
//!   it is closed, the daily summary of the most recent trading day is used.
use vstd::prelude::*;
use vstd::string::*;
use crate::text::texts_of;
use crate::clock::{
    UtcInstant, EasternClock, eastern_clock, eastern_clock_of, eastern_stamp, eastern_stamp_of,
    days_before, usable_instant, lemma_usable_lookback, LOOKBACK_DAYS, SECONDS_PER_DAY, utc_date_of,
    utc_date_text,
};

verus! {

/// 4:00 AM, 9:30 AM, 4:00 PM and 8:00 PM as seconds since midnight.
pub const PRE_MARKET_OPEN_SECOND: u32 = 14400;
pub const REGULAR_OPEN_SECOND: u32 = 34200;
pub const REGULAR_CLOSE_SECOND: u32 = 57600;
pub const AFTER_HOURS_CLOSE_SECOND: u32 = 72000;

/// Whether markets are currently open.
#[derive(Debug, Clone, Copy, PartialEq, Eq, Structural)]
pub enum MarketStatus {
    /// Open (pre-market, regular or after-hours).
    Open,
    /// Closed (nights, weekends, holidays).
    Closed,
}

/// The trading session that is active.
#[derive(Debug, Clone, Copy, PartialEq, Eq, Structural)]
pub enum TradingSession {
    /// 4:00 AM - 9:30 AM ET
    PreMarket,
    /// 9:30 AM - 4:00 PM ET
    RegularHours,
    /// 4:00 PM - 8:00 PM ET
    AfterHours,
    /// The market is closed.
    Closed,
}

/// Why the market is closed.
#[derive(Debug, Clone)]
pub enum ClosedReason {
    /// Outside trading hours (nights).
    OutsideHours,
    /// Saturday or Sunday.
    Weekend,
    /// A market holiday, with its name.
    Holiday(String),
}

/// Which data to use, chosen by the market status.
#[derive(Debug, Clone)]
pub enum DataSourceStrategy {
    /// Real-time or current data: the market is open.
    RealTime { session: TradingSession, market_date: String },
    /// The daily summary of an earlier trading day: the market is closed.
    PreviousDay { summary_date: String, reason: ClosedReason },
}

/// A market holiday as the market-status service reports it.
#[derive(Debug, Clone)]
pub struct MarketHoliday {
    /// `YYYY-MM-DD`
    pub date: String,
    pub name: String,
    /// "closed" or "early_close"
    pub status: String,
    pub open: Option<String>,
    pub close: Option<String>,
}

pub enum ClosedReasonView {
    OutsideHours,
    Weekend,
    Holiday(Seq<char>),
}

pub enum DataSourceView {
    RealTime { session: TradingSession, market_date: Seq<char> },
    PreviousDay { summary_date: Seq<char>, reason: ClosedReasonView },
}

impl View for ClosedReason {
    type V = ClosedReasonView;

    open spec fn view(&self) -> ClosedReasonView {
        match self {
            ClosedReason::OutsideHours => ClosedReasonView::OutsideHours,
            ClosedReason::Weekend => ClosedReasonView::Weekend,
            ClosedReason::Holiday(name) => ClosedReasonView::Holiday(name@),
        }
    }
}

impl View for DataSourceStrategy {
    type V = DataSourceView;

    open spec fn view(&self) -> DataSourceView {
        match self {
            DataSourceStrategy::RealTime { session, market_date } => DataSourceView::RealTime {
                session: *session,
                market_date: market_date@,
            },
            DataSourceStrategy::PreviousDay { summary_date, reason } => DataSourceView::PreviousDay {
                summary_date: summary_date@,
                reason: reason@,
            },
        }
    }
}

/// The Eastern reading of an instant.
pub open spec fn clock_at(t: UtcInstant) -> (Seq<char>, u32, u32, u32) {
    eastern_clock_of(t.spec_secs(), t.spec_nanos())
}

pub open spec fn is_weekend_day(weekday: u32) -> bool {
    weekday == 5 || weekday == 6
}

/// 4:00:00 <= time <= 20:00:00 on the local clock.
pub open spec fn within_open_hours(second: u32, nano: u32) -> bool {
    &&& second >= PRE_MARKET_OPEN_SECOND
    &&& (second < AFTER_HOURS_CLOSE_SECOND || (second == AFTER_HOURS_CLOSE_SECOND && nano == 0))
}

/// time > 20:00:00 on the local clock.
pub open spec fn after_close(second: u32, nano: u32) -> bool {
    second > AFTER_HOURS_CLOSE_SECOND || (second == AFTER_HOURS_CLOSE_SECOND && nano > 0)
}

/// A day on which the market trades: a weekday that is no holiday.
pub open spec fn is_trading_day(c: (Seq<char>, u32, u32, u32), holidays: Seq<Seq<char>>) -> bool {
    !is_weekend_day(c.1) && !holidays.contains(c.0)
}

pub open spec fn status_of(c: (Seq<char>, u32, u32, u32), holidays: Seq<Seq<char>>) -> MarketStatus {
    if is_weekend_day(c.1) || holidays.contains(c.0) {
        MarketStatus::Closed
    } else if within_open_hours(c.2, c.3) {
        MarketStatus::Open
    } else {
        MarketStatus::Closed
    }
}

pub open spec fn session_of(c: (Seq<char>, u32, u32, u32), holidays: Seq<Seq<char>>) -> TradingSession {
    if status_of(c, holidays) == MarketStatus::Closed {
        TradingSession::Closed
    } else if c.2 < REGULAR_OPEN_SECOND {
        TradingSession::PreMarket
    } else if c.2 < REGULAR_CLOSE_SECOND {
        TradingSession::RegularHours
    } else if within_open_hours(c.2, c.3) {
        TradingSession::AfterHours
    } else {
        TradingSession::Closed
    }
}

pub open spec fn closed_reason_of(c: (Seq<char>, u32, u32, u32), holidays: Seq<Seq<char>>) -> ClosedReasonView {
    if is_weekend_day(c.1) {
        ClosedReasonView::Weekend
    } else if holidays.contains(c.0) {
        ClosedReasonView::Holiday("Market Holiday"@)
    } else {
        ClosedReasonView::OutsideHours
    }
}

/// The date the look-back settles on, starting `k` days before the instant:
/// the first trading day among the days 1 to 11 before it, or the instant's
/// own date when none of them trades.
pub open spec fn lookback_date(secs: i64, nanos: u32, holidays: Seq<Seq<char>>, k: int) -> Seq<char>
    decreases LOOKBACK_DAYS + 1 - k,
{
    if k < 1 || k > LOOKBACK_DAYS {
        eastern_clock_of(secs, nanos).0
    } else {
        let c = eastern_clock_of(days_before(secs, k), nanos);
        if is_trading_day(c, holidays) {
            c.0
        } else if k > 10 {
            eastern_clock_of(secs, nanos).0
        } else {
            lookback_date(secs, nanos, holidays, k + 1)
        }
    }
}

/// The most recent trading day, with the reason for the closure.
pub open spec fn previous_trading_day_of(secs: i64, nanos: u32, holidays: Seq<Seq<char>>) -> (Seq<char>, ClosedReasonView) {
    let c = eastern_clock_of(secs, nanos);
    let reason = closed_reason_of(c, holidays);
    if reason is OutsideHours && after_close(c.2, c.3) {
        (c.0, reason)
    } else {
        (lookback_date(secs, nanos, holidays, 1), reason)
    }
}

pub open spec fn strategy_of(t: UtcInstant, holidays: Seq<Seq<char>>) -> DataSourceView {
    let c = clock_at(t);
    if status_of(c, holidays) == MarketStatus::Open {
        DataSourceView::RealTime { session: session_of(c, holidays), market_date: c.0 }
    } else {
        let info = previous_trading_day_of(t.spec_secs(), t.spec_nanos(), holidays);
        DataSourceView::PreviousDay { summary_date: info.0, reason: info.1 }
    }
}

pub open spec fn session_text(s: TradingSession) -> Seq<char> {
    match s {
        TradingSession::PreMarket => "pre-market"@,
        TradingSession::RegularHours => "regular hours"@,
        TradingSession::AfterHours => "after-hours"@,
        TradingSession::Closed => "closed"@,
    }
}

pub open spec fn reason_text(r: ClosedReasonView) -> Seq<char> {
    match r {
        ClosedReasonView::OutsideHours => "outside trading hours"@,
        ClosedReasonView::Weekend => "weekend"@,
        ClosedReasonView::Holiday(name) => "holiday ("@ + name + ")"@,
    }
}

/// The human-readable status line for a strategy and the Eastern time stamp.
pub open spec fn description_of(s: DataSourceView, stamp: Seq<char>) -> Seq<char> {
    match s {
        DataSourceView::RealTime { session, market_date } =>
            "Market OPEN - "@ + session_text(session) + " session on "@ + market_date + " (ET: "@ + stamp + ")"@,
        DataSourceView::PreviousDay { summary_date, reason } =>
            "Market CLOSED - "@ + reason_text(reason) + " (ET: "@ + stamp + ") | Using summary data from "@ + summary_date,
    }
}

/// Whether the holiday cache is stale: more than 24 whole hours (counted as
/// chrono's `num_hours` does, toward zero) have passed since it was updated,
/// or it holds no holiday.
pub open spec fn refresh_due(now_secs: int, now_nanos: int, last_secs: int, last_nanos: int, empty: bool) -> bool {
    (now_secs - last_secs) * 1_000_000_000 + (now_nanos - last_nanos) >= 25 * 3600 * 1_000_000_000 || empty
}


/// The day `k` days before the instant, read on the Eastern clock.
pub open spec fn day_back(secs: i64, nanos: u32, k: int) -> (Seq<char>, u32, u32, u32) {
    eastern_clock_of(days_before(secs, k), nanos)
}

/// What the look-back from day `k` settles on: the first trading day among
/// the days `k` to 11 before the instant, or the instant's own date when none
/// of them trades.
pub open spec fn lookback_outcome(secs: i64, nanos: u32, holidays: Seq<Seq<char>>, k: int, date: Seq<char>) -> bool {
    ||| exists|m: int| #![trigger day_back(secs, nanos, m)]
            k <= m <= LOOKBACK_DAYS && date == day_back(secs, nanos, m).0
            && is_trading_day(day_back(secs, nanos, m), holidays)
            && forall|j: int| k <= j < m ==> !is_trading_day(#[trigger] day_back(secs, nanos, j), holidays)
    ||| date == eastern_clock_of(secs, nanos).0
            && forall|j: int| k <= j <= LOOKBACK_DAYS ==> !is_trading_day(#[trigger] day_back(secs, nanos, j), holidays)
}

proof fn lemma_lookback_outcome(secs: i64, nanos: u32, holidays: Seq<Seq<char>>, k: int)
    requires
        1 <= k <= LOOKBACK_DAYS,
    ensures
        lookback_outcome(secs, nanos, holidays, k, lookback_date(secs, nanos, holidays, k)),
    decreases LOOKBACK_DAYS + 1 - k,
{
    let c = day_back(secs, nanos, k);
    if is_trading_day(c, holidays) {
        assert(forall|j: int| k <= j < k ==> !is_trading_day(#[trigger] day_back(secs, nanos, j), holidays));
        assert(lookback_outcome(secs, nanos, holidays, k, c.0));
    } else if k > 10 {
        assert forall|j: int| k <= j <= LOOKBACK_DAYS implies !is_trading_day(#[trigger] day_back(secs, nanos, j), holidays) by {
            assert(j == k);
        }
    } else {
        lemma_lookback_outcome(secs, nanos, holidays, k + 1);
        let d = lookback_date(secs, nanos, holidays, k + 1);
        assert(lookback_date(secs, nanos, holidays, k) == d);
        if exists|m: int| #![trigger day_back(secs, nanos, m)]
            k + 1 <= m <= LOOKBACK_DAYS && d == day_back(secs, nanos, m).0
            && is_trading_day(day_back(secs, nanos, m), holidays)
            && forall|j: int| k + 1 <= j < m ==> !is_trading_day(#[trigger] day_back(secs, nanos, j), holidays) {
            let m = choose|m: int| #![trigger day_back(secs, nanos, m)]
                k + 1 <= m <= LOOKBACK_DAYS && d == day_back(secs, nanos, m).0
                && is_trading_day(day_back(secs, nanos, m), holidays)
                && forall|j: int| k + 1 <= j < m ==> !is_trading_day(#[trigger] day_back(secs, nanos, j), holidays);
            assert forall|j: int| k <= j < m implies !is_trading_day(#[trigger] day_back(secs, nanos, j), holidays) by {
                if j > k {
                    assert(k + 1 <= j < m);
                }
            }
        } else {
            assert forall|j: int| k <= j <= LOOKBACK_DAYS implies !is_trading_day(#[trigger] day_back(secs, nanos, j), holidays) by {
                if j > k {
                    assert(k + 1 <= j <= LOOKBACK_DAYS);
                }
            }
        }
    }
}

/// The trading session is `Closed` exactly when the market is closed.
pub proof fn law_session_closed_iff_market_closed(c: (Seq<char>, u32, u32, u32), holidays: Seq<Seq<char>>)
    ensures
        (session_of(c, holidays) == TradingSession::Closed) <==> (status_of(c, holidays) == MarketStatus::Closed),
{
}

/// The session follows the US Eastern clock (second of the day `c.2`,
/// nanosecond `c.3`, weekday `c.1` counted from Monday): on a weekday that is
/// no holiday, pre-market runs from 4:00 AM to 9:30 AM, regular hours from
/// 9:30 AM to 4:00 PM, after hours from 4:00 PM to 8:00 PM inclusive, and
/// the market is closed before and after; Saturdays, Sundays and holidays
/// are closed all day. Each session holds exactly in its hours.
pub proof fn law_sessions_follow_the_clock(c: (Seq<char>, u32, u32, u32), holidays: Seq<Seq<char>>)
    ensures
        ({
            let trading = c.1 != 5 && c.1 != 6 && !holidays.contains(c.0);
            let s = session_of(c, holidays);
            &&& (s == TradingSession::PreMarket) <==> (trading && 14400 <= c.2 && c.2 < 34200)
            &&& (s == TradingSession::RegularHours) <==> (trading && 34200 <= c.2 && c.2 < 57600)
            &&& (s == TradingSession::AfterHours) <==> (trading && ((57600 <= c.2 && c.2 < 72000)
                || (c.2 == 72000 && c.3 == 0)))
            &&& (s == TradingSession::Closed) <==> (!trading || c.2 < 14400 || c.2 > 72000 || (c.2 == 72000
                && c.3 > 0))
        }),
{
}

/// Saturdays, Sundays and market holidays are closed all day, whatever the
/// hour; on other days the market is open from 4:00 AM to 8:00 PM inclusive.
pub proof fn law_open_exactly_on_trading_hours(c: (Seq<char>, u32, u32, u32), holidays: Seq<Seq<char>>)
    ensures
        (status_of(c, holidays) == MarketStatus::Open) <==> (is_trading_day(c, holidays) && within_open_hours(c.2, c.3)),
        is_weekend_day(c.1) ==> closed_reason_of(c, holidays) == ClosedReasonView::Weekend,
{
}

/// Real-time data is chosen exactly while the market is open, for the
/// current session and the current Eastern date.
pub proof fn law_real_time_exactly_when_open(t: UtcInstant, holidays: Seq<Seq<char>>)
    ensures
        (strategy_of(t, holidays) is RealTime) <==> (status_of(clock_at(t), holidays) == MarketStatus::Open),
        strategy_of(t, holidays) matches DataSourceView::RealTime { session, market_date }
            ==> session == session_of(clock_at(t), holidays) && market_date == clock_at(t).0
                && session != TradingSession::Closed,
{
}

/// While the market is closed, the summary comes from the most recent trading
/// day: today after the 8:00 PM close, else the first trading day among the
/// eleven days before; when none of those trades, today's date is kept.
pub proof fn law_summary_from_most_recent_trading_day(t: UtcInstant, holidays: Seq<Seq<char>>)
    requires
        status_of(clock_at(t), holidays) == MarketStatus::Closed,
    ensures
        strategy_of(t, holidays) matches DataSourceView::PreviousDay { summary_date, reason } ==> {
            let secs = t.spec_secs();
            let nanos = t.spec_nanos();
            let c = clock_at(t);
            ||| (reason is OutsideHours && after_close(c.2, c.3) && summary_date == c.0
                && is_trading_day(c, holidays))
            ||| lookback_outcome(secs, nanos, holidays, 1, summary_date)
        },
        strategy_of(t, holidays) is PreviousDay,
{
    let secs = t.spec_secs();
    let nanos = t.spec_nanos();
    lemma_lookback_outcome(secs, nanos, holidays, 1);
}

/// The day whose daily bar is asked for at the instant `now_secs` (see
/// `MarketSchedule::daily_bar_date_at`).
pub open spec fn daily_bar_date_of(at: UtcInstant, holidays: Seq<Seq<char>>, now_secs: i64) -> Seq<char> {
    match strategy_of(at, holidays) {
        DataSourceView::RealTime { market_date, .. } => if clock_at(at).2 < REGULAR_CLOSE_SECOND {
            utc_date_of((now_secs - SECONDS_PER_DAY) as i64)
        } else {
            market_date
        },
        DataSourceView::PreviousDay { summary_date, .. } => summary_date,
    }
}

/// Among the first `n` cache rows (date, name, status), one with status
/// "closed" lists the date `d`.
pub open spec fn rows_close(rows: Seq<(String, String, String)>, n: int, d: Seq<char>) -> bool {
    exists|j: int| 0 <= j < n && #[trigger] rows[j].2@ == "closed"@ && rows[j].0@ == d
}

/// Among the first `n` reported holidays, one with status "closed" falls on
/// the date `d`.
pub open spec fn reports_close(h: Seq<MarketHoliday>, n: int, d: Seq<char>) -> bool {
    exists|j: int| 0 <= j < n && #[trigger] h[j].status@ == "closed"@ && h[j].date@ == d
}

proof fn lemma_rows_close_step(rows: Seq<(String, String, String)>, i: int, d: Seq<char>)
    requires
        0 <= i < rows.len(),
    ensures
        rows_close(rows, i + 1, d) <==> (rows_close(rows, i, d) || (rows[i].2@ == "closed"@ && rows[i].0@ == d)),
{
    if rows_close(rows, i + 1, d) {
        let j = choose|j: int| 0 <= j < i + 1 && #[trigger] rows[j].2@ == "closed"@ && rows[j].0@ == d;
        if j < i {
            assert(rows_close(rows, i, d));
        }
    }
    if rows_close(rows, i, d) {
        let j = choose|j: int| 0 <= j < i && #[trigger] rows[j].2@ == "closed"@ && rows[j].0@ == d;
        assert(rows_close(rows, i + 1, d));
    }
    if rows[i].2@ == "closed"@ && rows[i].0@ == d {
        assert(rows_close(rows, i + 1, d));
    }
}

proof fn lemma_reports_close_step(h: Seq<MarketHoliday>, i: int, d: Seq<char>)
    requires
        0 <= i < h.len(),
    ensures
        reports_close(h, i + 1, d) <==> (reports_close(h, i, d) || (h[i].status@ == "closed"@ && h[i].date@ == d)),
{
    if reports_close(h, i + 1, d) {
        let j = choose|j: int| 0 <= j < i + 1 && #[trigger] h[j].status@ == "closed"@ && h[j].date@ == d;
        if j < i {
            assert(reports_close(h, i, d));
        }
    }
    if reports_close(h, i, d) {
        let j = choose|j: int| 0 <= j < i && #[trigger] h[j].status@ == "closed"@ && h[j].date@ == d;
        assert(reports_close(h, i + 1, d));
    }
    if h[i].status@ == "closed"@ && h[i].date@ == d {
        assert(reports_close(h, i + 1, d));
    }
}

/// Whether `date` is one of `dates`.
fn lists_date(dates: &Vec<String>, date: &String) -> (r: bool)
    ensures
        r == texts_of(dates@).contains(date@),
{
    let mut i: usize = 0;
    while i < dates.len()
        invariant
            0 <= i <= dates.len(),
            forall|j: int| 0 <= j < i ==> dates@[j]@ != date@,
        decreases dates.len() - i,
    {
        if dates[i] == *date {
            assert(texts_of(dates@)[i as int] == date@);
            return true;
        }
        i = i + 1;
    }
    proof {
        if texts_of(dates@).contains(date@) {
            let j = choose|j: int| 0 <= j < texts_of(dates@).len() && texts_of(dates@)[j] == date@;
            assert(dates@[j]@ == date@);
        }
    }
    false
}

/// The US market calendar at a given instant, with the cached list of market
/// holidays (dates as `YYYY-MM-DD`).
pub struct MarketSchedule {
    /// The instant the schedule describes.
    pub current_time: UtcInstant,
    market_holidays: Vec<String>,
    holidays_last_updated: (i64, u32),
}

impl MarketSchedule {
    /// The holiday dates the schedule knows.
    pub closed spec fn holidays(&self) -> Seq<Seq<char>> {
        texts_of(self.market_holidays@)
    }

    /// The instant the schedule describes.
    pub closed spec fn at(&self) -> UtcInstant {
        self.current_time
    }

    /// When the holiday list was last updated (seconds, nanoseconds).
    pub closed spec fn last_updated(&self) -> (i64, u32) {
        self.holidays_last_updated
    }

    /// A schedule at the current time, with no holidays known yet and the
    /// holiday list last updated at the Unix epoch.
    pub fn new() -> (r: Self)
        ensures
            r.holidays() == Seq::<Seq<char>>::empty(),
            r.last_updated() == (0i64, 0u32),
    {
        let r = MarketSchedule {
            current_time: UtcInstant::now(),
            market_holidays: Vec::new(),
            holidays_last_updated: (0, 0),
        };
        assert(texts_of(r.market_holidays@) =~= Seq::<Seq<char>>::empty());
        r
    }

    /// The same schedule at another instant.
    pub fn with_time(self, time: UtcInstant) -> (r: Self)
        ensures
            r.at() == time,
            r.holidays() == self.holidays(),
            r.last_updated() == self.last_updated(),
    {
        let mut s = self;
        s.current_time = time;
        s
    }

    /// Adds a date to the holiday list unless it is there already.
    fn insert_holiday(&mut self, date: String)
        ensures
            final(self).at() == old(self).at(),
            final(self).last_updated() == old(self).last_updated(),
            forall|d: Seq<char>| #[trigger] final(self).holidays().contains(d) <==> (old(self).holidays().contains(d) || d == date@),
    {
        let ghost before = self.holidays();
        if !lists_date(&self.market_holidays, &date) {
            self.market_holidays.push(date);
            proof {
                assert(self.holidays() =~= before.push(date@));
                assert forall|d: Seq<char>| self.holidays().contains(d) <==> (before.contains(d) || d == date@) by {
                    if self.holidays().contains(d) {
                        let j = choose|j: int| 0 <= j < self.holidays().len() && self.holidays()[j] == d;
                        if j < before.len() {
                            assert(before[j] == d);
                        }
                    }
                    if before.contains(d) {
                        let j = choose|j: int| 0 <= j < before.len() && before[j] == d;
                        assert(self.holidays()[j] == d);
                    }
                    if d == date@ {
                        assert(self.holidays()[before.len() as int] == d);
                    }
                }
            }
        }
    }

    /// Replaces the holiday list with the rows of the holiday cache
    /// (date, name, status): the dates whose status is "closed" are kept.
    /// `updated_at` becomes the time of the last update.
    pub fn load_holidays_from_rows(&mut self, rows: &Vec<(String, String, String)>, updated_at: &UtcInstant)
        ensures
            final(self).at() == old(self).at(),
            final(self).last_updated() == (updated_at.spec_secs(), updated_at.spec_nanos()),
            forall|d: Seq<char>| final(self).holidays().contains(d) <==> rows_close(rows@, rows@.len() as int, d),
    {
        self.market_holidays = Vec::new();
        assert(self.holidays() =~= Seq::<Seq<char>>::empty());
        let closed = String::from_str("closed");
        let mut i: usize = 0;
        while i < rows.len()
            invariant
                0 <= i <= rows.len(),
                closed@ == "closed"@,
                self.at() == old(self).at(),
                forall|d: Seq<char>| self.holidays().contains(d) <==> rows_close(rows@, i as int, d),
            decreases rows.len() - i,
        {
            if rows[i].2 == closed {
                self.insert_holiday(rows[i].0.clone());
            }
            proof {
                assert forall|d: Seq<char>| self.holidays().contains(d) <==> rows_close(rows@, i + 1, d) by {
                    lemma_rows_close_step(rows@, i as int, d);
                }
            }
            i = i + 1;
        }
        self.holidays_last_updated = (updated_at.secs(), updated_at.nanos());
    }

    /// Adds the holidays reported by the market-status service whose status is
    /// "closed"; `updated_at` becomes the time of the last update.
    pub fn record_holidays(&mut self, holidays: &Vec<MarketHoliday>, updated_at: &UtcInstant)
        ensures
            final(self).at() == old(self).at(),
            final(self).last_updated() == (updated_at.spec_secs(), updated_at.spec_nanos()),
            forall|d: Seq<char>| #[trigger] final(self).holidays().contains(d) <==> (old(self).holidays().contains(d)
                || reports_close(holidays@, holidays@.len() as int, d)),
    {
        let closed = String::from_str("closed");
        self.holidays_last_updated = (updated_at.secs(), updated_at.nanos());
        let ghost before = self.holidays();
        let mut i: usize = 0;
        while i < holidays.len()
            invariant
                0 <= i <= holidays.len(),
                self.last_updated() == (updated_at.spec_secs(), updated_at.spec_nanos()),
                closed@ == "closed"@,
                self.at() == old(self).at(),
                before == old(self).holidays(),
                forall|d: Seq<char>| #[trigger] self.holidays().contains(d) <==> (before.contains(d) || reports_close(holidays@, i as int, d)),
            decreases holidays.len() - i,
        {
            if holidays[i].status == closed {
                self.insert_holiday(holidays[i].date.clone());
            }
            proof {
                assert forall|d: Seq<char>| self.holidays().contains(d) <==> (before.contains(d) || reports_close(holidays@, i + 1, d)) by {
                    lemma_reports_close_step(holidays@, i as int, d);
                }
            }
            i = i + 1;
        }
    }

    /// Whether the holiday list should be fetched again at `now`: more than
    /// 24 hours after the last update, or while it is empty.
    pub fn should_refresh_holidays_at(&self, now: &UtcInstant) -> (r: bool)
        ensures
            r == refresh_due(
                now.spec_secs() as int,
                now.spec_nanos() as int,
                self.last_updated().0 as int,
                self.last_updated().1 as int,
                self.holidays().len() == 0,
            ),
    {
        let now_secs = now.secs() as i128;
        let now_nanos = now.nanos() as i128;
        let last_secs = self.holidays_last_updated.0 as i128;
        let last_nanos = self.holidays_last_updated.1 as i128;
        let elapsed = (now_secs - last_secs) * 1_000_000_000 + (now_nanos - last_nanos);
        elapsed >= 25 * 3600 * 1_000_000_000 || self.market_holidays.len() == 0
    }

    /// Whether the holiday list should be fetched again now: the rule of
    /// `should_refresh_holidays_at` applied to the current time, read once.
    pub fn should_refresh_holidays(&self) -> (r: bool)
        ensures
            self.holidays().len() == 0 ==> r,
            exists|secs: i64, nanos: u32|
                #![trigger usable_instant(secs, nanos)]
                secs >= 0 && usable_instant(secs, nanos) && r == refresh_due(
                    secs as int,
                    nanos as int,
                    self.last_updated().0 as int,
                    self.last_updated().1 as int,
                    self.holidays().len() == 0,
                ),
    {
        let now = UtcInstant::now();
        self.should_refresh_holidays_at(&now)
    }

    fn eastern_reading(&self) -> (c: EasternClock)
        ensures
            c.parts() == clock_at(self.at()),
    {
        let secs = self.current_time.secs();
        let nanos = self.current_time.nanos();
        proof {
            lemma_usable_lookback(secs, nanos, 0);
        }
        match eastern_clock(secs, nanos) {
            Some(c) => c,
            None => vstd::pervasive::unreached(),
        }
    }

    fn is_weekend(c: &EasternClock) -> (r: bool)
        ensures
            r == is_weekend_day(c.weekday),
    {
        c.weekday == 5 || c.weekday == 6
    }

    fn status_at(&self, c: &EasternClock) -> (r: MarketStatus)
        ensures
            r == status_of(c.parts(), self.holidays()),
    {
        if Self::is_weekend(c) {
            return MarketStatus::Closed;
        }
        if lists_date(&self.market_holidays, &c.date) {
            return MarketStatus::Closed;
        }
        if c.second_of_day >= PRE_MARKET_OPEN_SECOND && (c.second_of_day < AFTER_HOURS_CLOSE_SECOND
            || (c.second_of_day == AFTER_HOURS_CLOSE_SECOND && c.nanosecond == 0)) {
            MarketStatus::Open
        } else {
            MarketStatus::Closed
        }
    }

    /// Whether the market is open now: a weekday that is not a holiday,
    /// between 4:00 AM and 8:00 PM Eastern time.
    pub fn get_market_status(&self) -> (r: MarketStatus)
        ensures
            r == status_of(clock_at(self.at()), self.holidays()),
    {
        let c = self.eastern_reading();
        self.status_at(&c)
    }

    fn session_at(&self, c: &EasternClock) -> (r: TradingSession)
        ensures
            r == session_of(c.parts(), self.holidays()),
    {
        if self.status_at(c) == MarketStatus::Closed {
            return TradingSession::Closed;
        }
        let t = c.second_of_day;
        if t >= PRE_MARKET_OPEN_SECOND && t < REGULAR_OPEN_SECOND {
            TradingSession::PreMarket
        } else if t >= REGULAR_OPEN_SECOND && t < REGULAR_CLOSE_SECOND {
            TradingSession::RegularHours
        } else if t >= REGULAR_CLOSE_SECOND && (t < AFTER_HOURS_CLOSE_SECOND || (t
            == AFTER_HOURS_CLOSE_SECOND && c.nanosecond == 0)) {
            TradingSession::AfterHours
        } else {
            TradingSession::Closed
        }
    }

    /// The active trading session.
    pub fn get_trading_session(&self) -> (r: TradingSession)
        ensures
            r == session_of(clock_at(self.at()), self.holidays()),
    {
        let c = self.eastern_reading();
        self.session_at(&c)
    }

    /// The most recent trading day and the reason for the closure.
    fn get_previous_trading_day_info(&self, c: &EasternClock) -> (r: (String, ClosedReason))
        requires
            c.parts() == clock_at(self.at()),
        ensures
            (r.0@, r.1@) == previous_trading_day_of(
                self.at().spec_secs(),
                self.at().spec_nanos(),
                self.holidays(),
            ),
    {
        let secs = self.current_time.secs();
        let nanos = self.current_time.nanos();
        let ghost hol = self.holidays();
        let reason = if Self::is_weekend(c) {
            ClosedReason::Weekend
        } else if lists_date(&self.market_holidays, &c.date) {
            ClosedReason::Holiday(String::from_str("Market Holiday"))
        } else {
            ClosedReason::OutsideHours
        };
        assert(reason@ == closed_reason_of(c.parts(), hol));
        let outside = match reason {
            ClosedReason::OutsideHours => true,
            _ => false,
        };
        if outside && (c.second_of_day > AFTER_HOURS_CLOSE_SECOND || (c.second_of_day
            == AFTER_HOURS_CLOSE_SECOND && c.nanosecond > 0)) {
            return (c.date.clone(), reason);
        }
        let mut k: i64 = 1;
        while k <= LOOKBACK_DAYS
            invariant
                1 <= k <= LOOKBACK_DAYS,
                secs == self.current_time.spec_secs(),
                nanos == self.current_time.spec_nanos(),
                usable_instant(secs, nanos),
                hol == self.holidays(),
                c.parts() == eastern_clock_of(secs, nanos),
                lookback_date(secs, nanos, hol, 1) == lookback_date(secs, nanos, hol, k as int),
                reason@ == closed_reason_of(c.parts(), hol),
                !(reason@ is OutsideHours && after_close(c.second_of_day, c.nanosecond)),
            decreases LOOKBACK_DAYS + 1 - k,
        {
            proof {
                lemma_usable_lookback(secs, nanos, k as int);
            }
            let day = match eastern_clock(secs - SECONDS_PER_DAY * k, nanos) {
                Some(d) => d,
                None => vstd::pervasive::unreached(),
            };
            assert(day.parts() == eastern_clock_of(days_before(secs, k as int), nanos));
            if !Self::is_weekend(&day) && !lists_date(&self.market_holidays, &day.date) {
                return (day.date, reason);
            }
            if k > 10 {
                return (c.date.clone(), reason);
            }
            k = k + 1;
        }
        vstd::pervasive::unreached()
    }

    /// Real-time data while the market is open; the summary of the most recent
    /// trading day while it is closed.
    pub fn get_data_source_strategy(&self) -> (r: DataSourceStrategy)
        ensures
            r@ == strategy_of(self.at(), self.holidays()),
    {
        let c = self.eastern_reading();
        self.strategy_at(&c)
    }

    fn strategy_at(&self, c: &EasternClock) -> (r: DataSourceStrategy)
        requires
            c.parts() == clock_at(self.at()),
        ensures
            r@ == strategy_of(self.at(), self.holidays()),
    {
        match self.status_at(c) {
            MarketStatus::Open => {
                let session = self.session_at(c);
                DataSourceStrategy::RealTime { session, market_date: c.date.clone() }
            },
            MarketStatus::Closed => {
                let (summary_date, reason) = self.get_previous_trading_day_info(c);
                DataSourceStrategy::PreviousDay { summary_date, reason }
            },
        }
    }

    /// The day whose daily bar is asked for, at `now`: while the market is
    /// open and it is not yet 4:00 PM Eastern, the current day's bar is not
    /// complete, so the UTC date of the day before `now` is used; later in an
    /// open day, the current market date; while closed, the summary date.
    pub fn daily_bar_date_at(&self, now: &UtcInstant) -> (r: String)
        ensures
            r@ == daily_bar_date_of(self.at(), self.holidays(), now.spec_secs()),
    {
        let c = self.eastern_reading();
        match self.strategy_at(&c) {
            DataSourceStrategy::RealTime { market_date, .. } => {
                if c.second_of_day < REGULAR_CLOSE_SECOND {
                    let secs = now.secs();
                    proof {
                        lemma_usable_lookback(secs, now.spec_nanos(), 1);
                    }
                    utc_date_text(secs - SECONDS_PER_DAY)
                } else {
                    market_date
                }
            },
            DataSourceStrategy::PreviousDay { summary_date, .. } => summary_date,
        }
    }

    /// The day whose daily bar is asked for now (see `daily_bar_date_at`).
    pub fn daily_bar_date(&self) -> (r: String)
        ensures
            exists|t: UtcInstant| r@ == #[trigger] daily_bar_date_of(self.at(), self.holidays(), t.spec_secs()),
    {
        let now = UtcInstant::now();
        self.daily_bar_date_at(&now)
    }

    /// A human-readable line on the market status and the data in use.
    pub fn get_status_description(&self) -> (r: String)
        ensures
            r@ == description_of(
                strategy_of(self.at(), self.holidays()),
                eastern_stamp_of(self.at().spec_secs(), self.at().spec_nanos()),
            ),
    {
        let c = self.eastern_reading();
        let strategy = self.strategy_at(&c);
        let secs = self.current_time.secs();
        let nanos = self.current_time.nanos();
        proof {
            lemma_usable_lookback(secs, nanos, 0);
        }
        let stamp = eastern_stamp(secs, nanos);
        match strategy {
            DataSourceStrategy::RealTime { session, market_date } => {
                let session_desc = match session {
                    TradingSession::PreMarket => "pre-market",
                    TradingSession::RegularHours => "regular hours",
                    TradingSession::AfterHours => "after-hours",
                    TradingSession::Closed => "closed",
                };
                let mut s = String::from_str("Market OPEN - ");
                s.append(session_desc);
                s.append(" session on ");
                s.append(market_date.as_str());
                s.append(" (ET: ");
                s.append(stamp.as_str());
                s.append(")");
                s
            },
            DataSourceStrategy::PreviousDay { summary_date, reason } => {
                let mut s = String::from_str("Market CLOSED - ");
                match reason {
                    ClosedReason::OutsideHours => s.append("outside trading hours"),
                    ClosedReason::Weekend => s.append("weekend"),
                    ClosedReason::Holiday(name) => {
                        s.append("holiday (");
                        s.append(name.as_str());
                        s.append(")");
                    },
                }
                s.append(" (ET: ");
                s.append(stamp.as_str());
                s.append(") | Using summary data from ");
                s.append(summary_date.as_str());
                s
            },
        }
    }
}

} // verus!
