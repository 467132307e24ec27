//! What the web interface answers: the replies about trading rules and the
//! rules engine, the watchlist's symbol rules and replies, and the checks on a
//! new risk configuration.
use vstd::prelude::*;
use vstd::string::*;
use crate::config::TradingMode;
use crate::clock::{utc_date_of, utc_date_text, UtcInstant, CHRONO_MIN_SECS, SECONDS_PER_DAY};
use crate::text::{contains_text, occurs_at, texts_of, to_uppercase_text, trim_text, trimmed_of, uppercase_of, utf8_len, utf8_len_capped};

verus! {

/// The reply to a request that creates or deletes a trading rule.
#[derive(Debug, Clone)]
pub struct CreateRuleResponse {
    pub success: bool,
    pub rule_id: Option<String>,
    pub message: Option<String>,
    pub error: Option<String>,
}

/// The reply to a request that starts or stops the rules engine.
#[derive(Debug, Clone)]
pub struct StartEngineResponse {
    pub success: bool,
    pub message: Option<String>,
    pub error: Option<String>,
}

fn success_with(text: &str) -> (r: Option<String>)
    ensures
        r matches Some(m) && m@ == text@,
{
    Some(String::from_str(text))
}

impl CreateRuleResponse {
    /// A rule was created under `rule_id`.
    pub fn created(rule_id: String) -> (r: Self)
        ensures
            r.success,
            r.rule_id == Some(rule_id),
            r.message matches Some(m) && m@ == "Trading rule created successfully"@,
            r.error is None,
    {
        CreateRuleResponse {
            success: true,
            rule_id: Some(rule_id),
            message: success_with("Trading rule created successfully"),
            error: None,
        }
    }

    /// The rule `rule_id` was deleted.
    pub fn deleted(rule_id: String) -> (r: Self)
        ensures
            r.success,
            r.rule_id == Some(rule_id),
            r.message matches Some(m) && m@ == "Trading rule deleted successfully"@,
            r.error is None,
    {
        CreateRuleResponse {
            success: true,
            rule_id: Some(rule_id),
            message: success_with("Trading rule deleted successfully"),
            error: None,
        }
    }

    /// The request failed with `error`.
    pub fn failed(error: String) -> (r: Self)
        ensures
            !r.success,
            r.rule_id is None,
            r.message is None,
            r.error == Some(error),
    {
        CreateRuleResponse { success: false, rule_id: None, message: None, error: Some(error) }
    }
}

impl StartEngineResponse {
    /// The rules engine was started.
    pub fn started() -> (r: Self)
        ensures
            r.success,
            r.message matches Some(m) && m@ == "Rules engine integration complete - ready for rule evaluation"@,
            r.error is None,
    {
        StartEngineResponse {
            success: true,
            message: success_with("Rules engine integration complete - ready for rule evaluation"),
            error: None,
        }
    }

    /// The rules engine was stopped.
    pub fn stopped() -> (r: Self)
        ensures
            r.success,
            r.message matches Some(m) && m@ == "Rules engine stopped successfully"@,
            r.error is None,
    {
        StartEngineResponse { success: true, message: success_with("Rules engine stopped successfully"), error: None }
    }
}

// ----- Watchlist -----

/// A watchlist symbol as it is stored: trimmed and upper-cased.
pub open spec fn normalized_symbol(raw: Seq<char>) -> Seq<char> {
    uppercase_of(trimmed_of(raw))
}

/// Trims and upper-cases a watchlist symbol.
pub fn normalize_symbol(raw: &str) -> (r: String)
    ensures
        r@ == normalized_symbol(raw@),
{
    let t = trim_text(raw);
    to_uppercase_text(t.as_str())
}

/// Why a watchlist request was refused.
#[derive(Debug, Clone, PartialEq, Eq)]
pub enum WatchlistError {
    /// The symbol is empty or longer than ten bytes.
    BadLength,
    /// The symbol is on the watchlist already.
    AlreadyListed(String),
    /// The symbol is not on the watchlist.
    NotListed(String),
    /// The database reported this error.
    Database(String),
    /// No database connection could be had.
    NoConnection,
}

/// The text of a message about a symbol: `Symbol `, the symbol, then `tail`.
pub open spec fn symbol_text(symbol: Seq<char>, tail: Seq<char>) -> Seq<char> {
    "Symbol "@ + symbol + tail
}

fn symbol_message(symbol: &str, tail: &str) -> (r: String)
    ensures
        r@ == symbol_text(symbol@, tail@),
{
    let mut m = String::from_str("Symbol ");
    m.append(symbol);
    m.append(tail);
    m
}

impl WatchlistError {
    /// The error's text.
    pub fn message(&self) -> (r: String)
        ensures
            self is BadLength ==> r@ == "Symbol must be 1-10 characters long"@,
            self matches WatchlistError::AlreadyListed(s) ==> r@ == symbol_text(s@, " already exists in watchlist"@),
            self matches WatchlistError::NotListed(s) ==> r@ == symbol_text(s@, " not found in watchlist"@),
            self matches WatchlistError::Database(e) ==> r@ == e@,
            self is NoConnection ==> r@ == "Database connection failed"@,
    {
        match self {
            WatchlistError::BadLength => String::from_str("Symbol must be 1-10 characters long"),
            WatchlistError::AlreadyListed(s) => symbol_message(s.as_str(), " already exists in watchlist"),
            WatchlistError::NotListed(s) => symbol_message(s.as_str(), " not found in watchlist"),
            WatchlistError::Database(e) => e.clone(),
            WatchlistError::NoConnection => String::from_str("Database connection failed"),
        }
    }
}

/// A symbol may be added when, trimmed and upper-cased, it is one to ten
/// bytes long.
pub fn validate_new_symbol(raw: &str) -> (r: Result<String, WatchlistError>)
    ensures
        r matches Ok(s) ==> s@ == normalized_symbol(raw@),
        r is Ok <==> 1 <= utf8_len(normalized_symbol(raw@)) <= 10,
        r is Err ==> r == Err::<String, WatchlistError>(WatchlistError::BadLength),
{
    let symbol = normalize_symbol(raw);
    let bytes = utf8_len_capped(symbol.as_str(), 10);
    if bytes == 0 || bytes > 10 {
        Err(WatchlistError::BadLength)
    } else {
        Ok(symbol)
    }
}

/// A change made to the watchlist.
#[derive(Debug, Clone, Copy, PartialEq, Eq, Structural)]
pub enum WatchlistChange {
    Add,
    Delete,
    Activate,
    Deactivate,
}

/// The tail of the success message of a change.
pub open spec fn change_text(change: WatchlistChange) -> Seq<char> {
    match change {
        WatchlistChange::Add => " added to watchlist"@,
        WatchlistChange::Delete => " removed from watchlist"@,
        WatchlistChange::Activate => " activated in watchlist"@,
        WatchlistChange::Deactivate => " deactivated in watchlist"@,
    }
}

/// The text by which the database reports a symbol listed twice.
pub open spec fn duplicate_marker() -> Seq<char> {
    "UNIQUE constraint failed"@
}

/// What a watchlist change answers, given what the database said: the
/// number of rows it changed, or its error. An added symbol needs no row
/// count; a changed or deleted one must have touched a row. A database error
/// that reports a duplicate means the symbol was listed already.
pub fn watchlist_outcome(change: WatchlistChange, symbol: &str, db: Result<u64, String>) -> (r: Result<String, WatchlistError>)
    ensures
        db is Ok && (change == WatchlistChange::Add || db->Ok_0 > 0) ==> (r matches Ok(m) && m@ == symbol_text(symbol@, change_text(change))),
        db is Ok && change != WatchlistChange::Add && db->Ok_0 == 0 ==> (r matches Err(WatchlistError::NotListed(s)) && s@ == symbol@),
        db matches Err(e) ==> (change == WatchlistChange::Add && (exists|i: int| occurs_at(e@, duplicate_marker(), i))
            ==> (r matches Err(WatchlistError::AlreadyListed(s)) && s@ == symbol@)),
        db matches Err(e) ==> (!(change == WatchlistChange::Add && (exists|i: int| occurs_at(e@, duplicate_marker(), i)))
            ==> r == Err::<String, WatchlistError>(WatchlistError::Database(e))),
{
    match db {
        Ok(rows) => {
            let tail = match change {
                WatchlistChange::Add => " added to watchlist",
                WatchlistChange::Delete => " removed from watchlist",
                WatchlistChange::Activate => " activated in watchlist",
                WatchlistChange::Deactivate => " deactivated in watchlist",
            };
            if change == WatchlistChange::Add || rows > 0 {
                Ok(symbol_message(symbol, tail))
            } else {
                Err(WatchlistError::NotListed(String::from_str(symbol)))
            }
        },
        Err(e) => {
            let marker = "UNIQUE constraint failed";
            proof {
                reveal_strlit("UNIQUE constraint failed");
            }
            assert(marker@ =~= duplicate_marker());
            let dup = contains_text(e.as_str(), marker);
            assert(dup == exists|i: int| occurs_at(e@, duplicate_marker(), i));
            if change == WatchlistChange::Add && dup {
                Err(WatchlistError::AlreadyListed(String::from_str(symbol)))
            } else {
                Err(WatchlistError::Database(e))
            }
        },
    }
}

// ----- Risk configuration -----

/// Why a new risk configuration is refused, checked in this order.
#[derive(Debug, Clone, Copy, PartialEq, Eq, Structural)]
pub enum RiskConfigError {
    ZeroMaxPositions,
    ExposureOutOfRange,
    SinglePositionOutOfRange,
    StopLossOutOfRange,
}

impl RiskConfigError {
    /// The error's text.
    pub fn message(&self) -> (r: &'static str)
        ensures
            *self == RiskConfigError::ZeroMaxPositions ==> r@ == "max_positions must be greater than 0"@,
            *self == RiskConfigError::ExposureOutOfRange ==> r@ == "max_portfolio_exposure_percent must be between 0 and 100"@,
            *self == RiskConfigError::SinglePositionOutOfRange ==> r@ == "max_single_position_percent must be between 0 and 100"@,
            *self == RiskConfigError::StopLossOutOfRange ==> r@ == "default_stop_loss_percent must be between 0 and 50"@,
    {
        match self {
            RiskConfigError::ZeroMaxPositions => "max_positions must be greater than 0",
            RiskConfigError::ExposureOutOfRange => "max_portfolio_exposure_percent must be between 0 and 100",
            RiskConfigError::SinglePositionOutOfRange => "max_single_position_percent must be between 0 and 100",
            RiskConfigError::StopLossOutOfRange => "default_stop_loss_percent must be between 0 and 50",
        }
    }
}

/// Checks a new risk configuration: the position limit is positive, the
/// exposure and single-position limits lie in (0, 100] and the default stop
/// loss in (0, 50]; the first check that fails is reported. The three range
/// findings are made on the percentages by the caller.
pub fn check_risk_update(max_positions: u32, exposure_in_range: bool, single_position_in_range: bool, stop_loss_in_range: bool) -> (r: Result<(), RiskConfigError>)
    ensures
        r == (if max_positions == 0 {
            Err(RiskConfigError::ZeroMaxPositions)
        } else if !exposure_in_range {
            Err(RiskConfigError::ExposureOutOfRange)
        } else if !single_position_in_range {
            Err(RiskConfigError::SinglePositionOutOfRange)
        } else if !stop_loss_in_range {
            Err(RiskConfigError::StopLossOutOfRange)
        } else {
            Ok(())
        }),
{
    if max_positions == 0 {
        Err(RiskConfigError::ZeroMaxPositions)
    } else if !exposure_in_range {
        Err(RiskConfigError::ExposureOutOfRange)
    } else if !single_position_in_range {
        Err(RiskConfigError::SinglePositionOutOfRange)
    } else if !stop_loss_in_range {
        Err(RiskConfigError::StopLossOutOfRange)
    } else {
        Ok(())
    }
}

// ----- Resetting the paper trading data -----

/// The statements that reset the paper trading data, in order: the trades,
/// positions, rules and portfolio snapshots are deleted, the session's
/// figures are zeroed with its cash back at the initial amount (given as its
/// decimal text), and the session is created if it does not exist.
pub open spec fn reset_statements_of(session_id: Seq<char>, initial_cash: Seq<char>) -> Seq<Seq<char>> {
    seq![
        "DELETE FROM paper_trades"@,
        "DELETE FROM positions"@,
        "DELETE FROM trading_rules_config"@,
        "DELETE FROM paper_portfolio_snapshots"@,
        "UPDATE paper_sessions SET \n                    current_cash = "@ + initial_cash + ",\n                    total_pnl = 0.0,\n                    realized_pnl = 0.0,\n                    unrealized_pnl = 0.0,\n                    open_positions = 0,\n                    total_trades = 0,\n                    winning_trades = 0,\n                    losing_trades = 0,\n                    commission_paid = 0.0,\n                    max_drawdown = 0.0,\n                    updated_at = strftime('%s', 'now'),\n                    status = 'ACTIVE'\n                    WHERE id = '"@ + session_id + "'"@,
        "INSERT OR IGNORE INTO paper_sessions (\n                    id, name, description, initial_cash, current_cash\n                ) VALUES (\n                    '"@ + session_id + "', 'Default Paper Trading Session', \n                    'Default session created for immediate paper trading testing',\n                    "@ + initial_cash + ", "@ + initial_cash + "\n                )"@,
    ]
}

fn concat2(a: &str, b: &str) -> (r: String)
    ensures
        r@ == a@ + b@,
{
    let mut s = String::from_str(a);
    s.append(b);
    s
}

fn concat3(a: &str, b: &str, c: &str) -> (r: String)
    ensures
        r@ == a@ + b@ + c@,
{
    let mut s = String::from_str(a);
    s.append(b);
    s.append(c);
    s
}

/// The statements that reset the paper trading data (see
/// `reset_statements_of`).
pub fn reset_statements(session_id: &str, initial_cash: &str) -> (r: Vec<String>)
    ensures
        texts_of(r@) == reset_statements_of(session_id@, initial_cash@),
{
    let mut v: Vec<String> = Vec::new();
    v.push(String::from_str("DELETE FROM paper_trades"));
    v.push(String::from_str("DELETE FROM positions"));
    v.push(String::from_str("DELETE FROM trading_rules_config"));
    v.push(String::from_str("DELETE FROM paper_portfolio_snapshots"));
    let mut update = concat3("UPDATE paper_sessions SET \n                    current_cash = ", initial_cash, ",\n                    total_pnl = 0.0,\n                    realized_pnl = 0.0,\n                    unrealized_pnl = 0.0,\n                    open_positions = 0,\n                    total_trades = 0,\n                    winning_trades = 0,\n                    losing_trades = 0,\n                    commission_paid = 0.0,\n                    max_drawdown = 0.0,\n                    updated_at = strftime('%s', 'now'),\n                    status = 'ACTIVE'\n                    WHERE id = '");
    update.append(session_id);
    update.append("'");
    v.push(update);
    let mut insert = concat3("INSERT OR IGNORE INTO paper_sessions (\n                    id, name, description, initial_cash, current_cash\n                ) VALUES (\n                    '", session_id, "', 'Default Paper Trading Session', \n                    'Default session created for immediate paper trading testing',\n                    ");
    insert.append(initial_cash);
    insert.append(", ");
    insert.append(initial_cash);
    insert.append("\n                )");
    v.push(insert);
    assert(texts_of(v@) =~= reset_statements_of(session_id@, initial_cash@));
    v
}

/// Why a reset did not happen.
#[derive(Debug, Clone, PartialEq, Eq)]
pub enum ResetFailure {
    /// No database connection could be had.
    Connection(String),
    /// The transaction could not begin.
    Transaction(String),
    /// A statement failed (the transaction is rolled back).
    Statement(String),
    /// The transaction could not be committed.
    Commit(String),
}

impl ResetFailure {
    /// The failure's text.
    pub fn message(&self) -> (r: String)
        ensures
            self matches ResetFailure::Connection(e) ==> r@ == "Database connection failed: "@ + e@,
            self matches ResetFailure::Transaction(e) ==> r@ == "Transaction failed: "@ + e@,
            self matches ResetFailure::Statement(e) ==> r@ == "Reset query failed: "@ + e@,
            self matches ResetFailure::Commit(e) ==> r@ == "Commit failed: "@ + e@,
    {
        match self {
            ResetFailure::Connection(e) => concat2("Database connection failed: ", e.as_str()),
            ResetFailure::Transaction(e) => concat2("Transaction failed: ", e.as_str()),
            ResetFailure::Statement(e) => concat2("Reset query failed: ", e.as_str()),
            ResetFailure::Commit(e) => concat2("Commit failed: ", e.as_str()),
        }
    }
}

/// Where a reset of the paper trading data stands.
#[derive(Debug, Clone, Copy, PartialEq, Eq, Structural)]
pub enum ResetStage {
    /// Waiting for the database connection.
    Connecting,
    /// Waiting for the transaction to begin.
    Beginning,
    /// Waiting for the outcome of the statement at this position.
    Running(usize),
    /// Waiting for the commit.
    Committing,
    /// The reset has answered.
    Finished,
}

/// What a reset does next.
#[derive(Debug, Clone, PartialEq, Eq)]
pub enum ResetAction {
    /// Begin the transaction.
    BeginTransaction,
    /// Run the statement at this position of `reset_statements`.
    Execute(usize),
    /// Commit the transaction.
    Commit,
    /// Roll the transaction back (whatever that gives), then answer with
    /// this failure.
    RollBack(ResetFailure),
    /// Answer that the reset is done (with `reset_done_message`).
    AnswerDone,
    /// Answer with this failure.
    AnswerFailed(ResetFailure),
}

/// The reset's next stage and action, given the outcome of what it did
/// last (for `Connecting`, whether a connection was had): the statements
/// run in order inside one transaction; the first failure stops the reset
/// and rolls it back; the transaction is committed only after every
/// statement succeeded; a failure to connect, to begin or to commit is
/// answered as such.
pub fn reset_step(stage: ResetStage, outcome: Result<(), String>, statement_count: usize) -> (r: (ResetStage, ResetAction))
    requires
        stage != ResetStage::Finished,
        stage matches ResetStage::Running(i) ==> i < statement_count,
    ensures
        stage == ResetStage::Connecting ==> match outcome {
            Err(e) => r == (ResetStage::Finished, ResetAction::AnswerFailed(ResetFailure::Connection(e))),
            Ok(()) => r == (ResetStage::Beginning, ResetAction::BeginTransaction),
        },
        stage == ResetStage::Beginning ==> match outcome {
            Err(e) => r == (ResetStage::Finished, ResetAction::AnswerFailed(ResetFailure::Transaction(e))),
            Ok(()) => if statement_count > 0 {
                r == (ResetStage::Running(0), ResetAction::Execute(0))
            } else {
                r == (ResetStage::Committing, ResetAction::Commit)
            },
        },
        stage matches ResetStage::Running(i) ==> match outcome {
            Err(e) => r == (ResetStage::Finished, ResetAction::RollBack(ResetFailure::Statement(e))),
            Ok(()) => if i + 1 < statement_count {
                r == (ResetStage::Running((i + 1) as usize), ResetAction::Execute((i + 1) as usize))
            } else {
                r == (ResetStage::Committing, ResetAction::Commit)
            },
        },
        stage == ResetStage::Committing ==> match outcome {
            Err(e) => r == (ResetStage::Finished, ResetAction::AnswerFailed(ResetFailure::Commit(e))),
            Ok(()) => r == (ResetStage::Finished, ResetAction::AnswerDone),
        },
{
    match stage {
        ResetStage::Connecting => match outcome {
            Err(e) => (ResetStage::Finished, ResetAction::AnswerFailed(ResetFailure::Connection(e))),
            Ok(()) => (ResetStage::Beginning, ResetAction::BeginTransaction),
        },
        ResetStage::Beginning => match outcome {
            Err(e) => (ResetStage::Finished, ResetAction::AnswerFailed(ResetFailure::Transaction(e))),
            Ok(()) => if statement_count > 0 {
                (ResetStage::Running(0), ResetAction::Execute(0))
            } else {
                (ResetStage::Committing, ResetAction::Commit)
            },
        },
        ResetStage::Running(i) => match outcome {
            Err(e) => (ResetStage::Finished, ResetAction::RollBack(ResetFailure::Statement(e))),
            Ok(()) => if i + 1 < statement_count {
                (ResetStage::Running(i + 1), ResetAction::Execute(i + 1))
            } else {
                (ResetStage::Committing, ResetAction::Commit)
            },
        },
        ResetStage::Committing => match outcome {
            Err(e) => (ResetStage::Finished, ResetAction::AnswerFailed(ResetFailure::Commit(e))),
            Ok(()) => (ResetStage::Finished, ResetAction::AnswerDone),
        },
        ResetStage::Finished => (ResetStage::Finished, ResetAction::AnswerDone),
    }
}

/// The message of a successful reset.
pub fn reset_done_message() -> (r: &'static str)
    ensures
        r@ == "Database has been reset to default state with $100,000 starting cash"@,
{
    "Database has been reset to default state with $100,000 starting cash"
}

// ----- Request defaults -----

/// The UTC date `days` days before `now`, or `now`'s own date when that day
/// lies before the earliest date chrono holds.
pub open spec fn days_ago_date_of(now_secs: i64, days: u32) -> Seq<char> {
    if CHRONO_MIN_SECS <= now_secs - days * SECONDS_PER_DAY {
        utc_date_of((now_secs - days * SECONDS_PER_DAY) as i64)
    } else {
        utc_date_of(now_secs)
    }
}

/// The UTC date `days` days before `now` (see `days_ago_date_of`).
pub fn days_ago_date(now: &UtcInstant, days: u32) -> (r: String)
    ensures
        r@ == days_ago_date_of(now.spec_secs(), days),
{
    let secs = now.secs();
    let back: i64 = (days as i64) * SECONDS_PER_DAY;
    if secs >= CHRONO_MIN_SECS + back {
        utc_date_text(secs - back)
    } else {
        utc_date_text(secs)
    }
}

/// The technical indicators the web interface serves.
#[derive(Debug, Clone, Copy, PartialEq, Eq, Structural)]
pub enum IndicatorKind {
    Sma,
    Ema,
    Rsi,
    Macd,
}

/// The window an indicator uses when none is asked for.
pub open spec fn default_window_of(kind: IndicatorKind) -> u32 {
    match kind {
        IndicatorKind::Sma => 50,
        IndicatorKind::Ema => 50,
        IndicatorKind::Rsi => 14,
        IndicatorKind::Macd => 12,
    }
}

/// The parameters of an indicator request.
#[derive(Debug, Clone)]
pub struct IndicatorParams {
    /// The window, or for MACD the short window.
    pub window: u32,
    pub long_window: u32,
    pub signal_window: u32,
    pub timespan: String,
    pub timestamp: String,
}

/// An indicator request's parameters with their defaults filled in: the
/// indicator's window (MACD: 12, 26 and 9), a daily timespan, and the date
/// thirty days before `now`.
pub fn indicator_params(
    kind: IndicatorKind,
    window: Option<u32>,
    long_window: Option<u32>,
    signal_window: Option<u32>,
    timespan: Option<&str>,
    timestamp: Option<&str>,
    now: &UtcInstant,
) -> (r: IndicatorParams)
    ensures
        r.window == match window {
            Some(w) => w,
            None => default_window_of(kind),
        },
        r.long_window == match long_window {
            Some(w) => w,
            None => 26,
        },
        r.signal_window == match signal_window {
            Some(w) => w,
            None => 9,
        },
        r.timespan@ == match timespan {
            Some(t) => t@,
            None => "day"@,
        },
        r.timestamp@ == match timestamp {
            Some(t) => t@,
            None => days_ago_date_of(now.spec_secs(), 30),
        },
{
    let default_window = match kind {
        IndicatorKind::Sma => 50,
        IndicatorKind::Ema => 50,
        IndicatorKind::Rsi => 14,
        IndicatorKind::Macd => 12,
    };
    IndicatorParams {
        window: match window {
            Some(w) => w,
            None => default_window,
        },
        long_window: match long_window {
            Some(w) => w,
            None => 26,
        },
        signal_window: match signal_window {
            Some(w) => w,
            None => 9,
        },
        timespan: match timespan {
            Some(t) => String::from_str(t),
            None => String::from_str("day"),
        },
        timestamp: match timestamp {
            Some(t) => String::from_str(t),
            None => days_ago_date(now, 30),
        },
    }
}

/// The date of a daily market summary request: the one asked for, or the
/// day before `now`.
pub fn summary_date(date: Option<&str>, now: &UtcInstant) -> (r: String)
    ensures
        r@ == match date {
            Some(d) => d@,
            None => days_ago_date_of(now.spec_secs(), 1),
        },
{
    match date {
        Some(d) => String::from_str(d),
        None => days_ago_date(now, 1),
    }
}

/// The range of a minute-bar request, with 2024-01-02 for a missing end,
/// and its label `FROM to TO`.
pub fn minute_range(from: Option<String>, to: Option<String>) -> (r: (String, String, String))
    ensures
        r.0@ == match from {
            Some(f) => f@,
            None => "2024-01-02"@,
        },
        r.1@ == match to {
            Some(t) => t@,
            None => "2024-01-02"@,
        },
        r.2@ == r.0@ + " to "@ + r.1@,
{
    let f = match from {
        Some(f) => f,
        None => String::from_str("2024-01-02"),
    };
    let t = match to {
        Some(t) => t,
        None => String::from_str("2024-01-02"),
    };
    let label = concat3(f.as_str(), " to ", t.as_str());
    (f, t, label)
}

// ----- System information -----

/// The version the system reports.
#[derive(Debug, Clone)]
pub struct SystemVersion {
    pub version: String,
    pub branch: String,
    pub commit: String,
    pub data_delay_minutes: u32,
    pub polygon_mode: String,
}

/// The version information: branch 9.2.25.1 at commit 945055e, and the data
/// delay of the market-data feed (15 minutes delayed, or real time).
pub fn system_version(use_delayed_data: bool) -> (r: SystemVersion)
    ensures
        r.branch@ == "9.2.25.1"@,
        r.commit@ == "945055e"@,
        r.version@ == "9.2.25.1-945055e"@,
        r.data_delay_minutes == if use_delayed_data { 15u32 } else { 0u32 },
        r.polygon_mode@ == if use_delayed_data { "delayed"@ } else { "real-time"@ },
{
    SystemVersion {
        version: String::from_str("9.2.25.1-945055e"),
        branch: String::from_str("9.2.25.1"),
        commit: String::from_str("945055e"),
        data_delay_minutes: if use_delayed_data { 15 } else { 0 },
        polygon_mode: if use_delayed_data { String::from_str("delayed") } else { String::from_str("real-time") },
    }
}

/// The broker status line.
pub fn broker_status_message(connected: bool) -> (r: &'static str)
    ensures
        connected ==> r@ == "✅ Broker connected and ready for trading"@,
        !connected ==> r@ == "❌ Broker not connected"@,
{
    if connected {
        "✅ Broker connected and ready for trading"
    } else {
        "❌ Broker not connected"
    }
}

/// The reply of the status service.
#[derive(Debug, Clone)]
pub struct StatusReply {
    pub broker_connected: bool,
    pub session_active: bool,
    pub message: String,
    /// The trading mode's name: PAPER, LIVE or SIMULATION.
    pub trading_mode: String,
}

/// The status reply: whether the broker is connected (the session counts as
/// active exactly then), its status line, and the trading mode's name.
pub fn status_reply(mode: TradingMode, connected: bool) -> (r: StatusReply)
    ensures
        r.broker_connected == connected,
        r.session_active == connected,
        connected ==> r.message@ == "✅ Broker connected and ready for trading"@,
        !connected ==> r.message@ == "❌ Broker not connected"@,
        r.trading_mode@ == match mode {
            TradingMode::Paper => "PAPER"@,
            TradingMode::Live => "LIVE"@,
            TradingMode::Simulation => "SIMULATION"@,
        },
{
    StatusReply {
        broker_connected: connected,
        session_active: connected,
        message: String::from_str(broker_status_message(connected)),
        trading_mode: String::from_str(mode.mode_name()),
    }
}

} // verus!
