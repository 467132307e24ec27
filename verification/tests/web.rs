use trading_system::web::{reset_step, ResetAction, ResetStage};
use trading_system::config::TradingMode;
use trading_system::web::status_reply;
use chrono::{TimeZone, Utc};
use trading_system::clock::UtcInstant;
use trading_system::metrics::init;
use trading_system::web::{
    broker_status_message, days_ago_date, indicator_params, minute_range, summary_date, system_version, IndicatorKind,
    check_risk_update, normalize_symbol, reset_done_message, reset_statements, ResetFailure, validate_new_symbol, watchlist_outcome, CreateRuleResponse,
    RiskConfigError, StartEngineResponse, WatchlistChange, WatchlistError,
};

#[test]
fn rule_and_engine_replies() {
    let r = CreateRuleResponse::created("abc".to_string());
    assert!(r.success);
    assert_eq!(r.rule_id.as_deref(), Some("abc"));
    assert_eq!(r.message.as_deref(), Some("Trading rule created successfully"));
    let r = CreateRuleResponse::deleted("abc".to_string());
    assert_eq!(r.message.as_deref(), Some("Trading rule deleted successfully"));
    let r = CreateRuleResponse::failed("boom".to_string());
    assert!(!r.success);
    assert!(r.rule_id.is_none());
    assert_eq!(r.error.as_deref(), Some("boom"));
    let s = StartEngineResponse::started();
    assert!(s.success);
    assert_eq!(s.message.as_deref(), Some("Rules engine integration complete - ready for rule evaluation"));
    assert_eq!(StartEngineResponse::stopped().message.as_deref(), Some("Rules engine stopped successfully"));
}

#[test]
fn watchlist_symbols_are_trimmed_and_upper_cased() {
    assert_eq!(normalize_symbol("  aapl \n"), "AAPL");
    // Unicode white space and case rules apply.
    assert_eq!(normalize_symbol("\u{3000}straße\t"), "STRASSE");
    assert_eq!(validate_new_symbol(" msft "), Ok("MSFT".to_string()));
    assert_eq!(validate_new_symbol("   "), Err(WatchlistError::BadLength));
    assert_eq!(validate_new_symbol("ABCDEFGHIJK"), Err(WatchlistError::BadLength));
    assert_eq!(validate_new_symbol("ABCDEFGHIJ"), Ok("ABCDEFGHIJ".to_string()));
    // Six characters, but twelve bytes.
    assert_eq!(validate_new_symbol("ÉÉÉÉÉÉ"), Err(WatchlistError::BadLength));
    assert_eq!(WatchlistError::BadLength.message(), "Symbol must be 1-10 characters long");
}

#[test]
fn watchlist_outcomes() {
    assert_eq!(watchlist_outcome(WatchlistChange::Add, "AAPL", Ok(1)), Ok("Symbol AAPL added to watchlist".to_string()));
    let e = watchlist_outcome(WatchlistChange::Add, "AAPL", Err("UNIQUE constraint failed: watchlist_symbols.symbol".to_string()))
        .unwrap_err();
    assert_eq!(e, WatchlistError::AlreadyListed("AAPL".to_string()));
    assert_eq!(e.message(), "Symbol AAPL already exists in watchlist");
    assert_eq!(
        watchlist_outcome(WatchlistChange::Add, "AAPL", Err("disk I/O error".to_string())),
        Err(WatchlistError::Database("disk I/O error".to_string()))
    );
    assert_eq!(
        watchlist_outcome(WatchlistChange::Delete, "TSLA", Ok(1)),
        Ok("Symbol TSLA removed from watchlist".to_string())
    );
    let e = watchlist_outcome(WatchlistChange::Delete, "TSLA", Ok(0)).unwrap_err();
    assert_eq!(e.message(), "Symbol TSLA not found in watchlist");
    assert_eq!(
        watchlist_outcome(WatchlistChange::Activate, "X", Ok(2)),
        Ok("Symbol X activated in watchlist".to_string())
    );
    assert_eq!(
        watchlist_outcome(WatchlistChange::Deactivate, "X", Ok(1)),
        Ok("Symbol X deactivated in watchlist".to_string())
    );
    // A duplicate report only matters when adding.
    assert_eq!(
        watchlist_outcome(WatchlistChange::Activate, "X", Err("UNIQUE constraint failed".to_string())),
        Err(WatchlistError::Database("UNIQUE constraint failed".to_string()))
    );
    assert_eq!(WatchlistError::NoConnection.message(), "Database connection failed");
}

#[test]
fn risk_updates_are_checked_in_order() {
    assert_eq!(check_risk_update(0, false, false, false), Err(RiskConfigError::ZeroMaxPositions));
    assert_eq!(check_risk_update(3, false, false, false), Err(RiskConfigError::ExposureOutOfRange));
    assert_eq!(check_risk_update(3, true, false, false), Err(RiskConfigError::SinglePositionOutOfRange));
    assert_eq!(check_risk_update(3, true, true, false), Err(RiskConfigError::StopLossOutOfRange));
    assert_eq!(check_risk_update(3, true, true, true), Ok(()));
    assert_eq!(RiskConfigError::StopLossOutOfRange.message(), "default_stop_loss_percent must be between 0 and 50");
}

#[test]
fn metrics_start() {
    assert!(init("0.0.0.0:9090").is_ok());
}

#[test]
fn reset_statements_in_order() {
    let initial_cash = 100000.0f64;
    let session_id = "default-session";
    let cash = format!("{}", initial_cash);
    let update_session = format!(
        "UPDATE paper_sessions SET 
                    current_cash = {},
                    total_pnl = 0.0,
                    realized_pnl = 0.0,
                    unrealized_pnl = 0.0,
                    open_positions = 0,
                    total_trades = 0,
                    winning_trades = 0,
                    losing_trades = 0,
                    commission_paid = 0.0,
                    max_drawdown = 0.0,
                    updated_at = strftime('%s', 'now'),
                    status = 'ACTIVE'
                    WHERE id = '{}'",
        initial_cash, session_id
    );
    let insert_session = format!(
        "INSERT OR IGNORE INTO paper_sessions (
                    id, name, description, initial_cash, current_cash
                ) VALUES (
                    '{}', 'Default Paper Trading Session', 
                    'Default session created for immediate paper trading testing',
                    {}, {}
                )",
        session_id, initial_cash, initial_cash
    );
    let expected = vec![
        "DELETE FROM paper_trades".to_string(),
        "DELETE FROM positions".to_string(),
        "DELETE FROM trading_rules_config".to_string(),
        "DELETE FROM paper_portfolio_snapshots".to_string(),
        update_session,
        insert_session,
    ];
    assert_eq!(reset_statements(session_id, &cash), expected);
    assert_eq!(reset_done_message(), "Database has been reset to default state with $100,000 starting cash");
    assert_eq!(ResetFailure::Commit("locked".to_string()).message(), "Commit failed: locked");
    assert_eq!(ResetFailure::Connection("gone".to_string()).message(), "Database connection failed: gone");
    assert_eq!(ResetFailure::Transaction("x".to_string()).message(), "Transaction failed: x");
    assert_eq!(ResetFailure::Statement("y".to_string()).message(), "Reset query failed: y");
}

fn at(y: i32, mo: u32, d: u32, h: u32) -> UtcInstant {
    let t = Utc.with_ymd_and_hms(y, mo, d, h, 0, 0).unwrap();
    UtcInstant::from_timestamp(t.timestamp(), 0).unwrap()
}

#[test]
fn request_defaults() {
    let now = at(2025, 9, 9, 18);
    assert_eq!(days_ago_date(&now, 30), "2025-08-10");
    assert_eq!(days_ago_date(&now, 1), "2025-09-08");
    let p = indicator_params(IndicatorKind::Rsi, None, None, None, None, None, &now);
    assert_eq!(p.window, 14);
    assert_eq!(p.timespan, "day");
    assert_eq!(p.timestamp, "2025-08-10");
    let p = indicator_params(IndicatorKind::Sma, Some(20), None, None, Some("minute"), Some("2025-01-02"), &now);
    assert_eq!(p.window, 20);
    assert_eq!(p.timespan, "minute");
    assert_eq!(p.timestamp, "2025-01-02");
    let p = indicator_params(IndicatorKind::Macd, None, None, None, None, None, &now);
    assert_eq!((p.window, p.long_window, p.signal_window), (12, 26, 9));
    assert_eq!(indicator_params(IndicatorKind::Ema, None, None, None, None, None, &now).window, 50);
    assert_eq!(summary_date(None, &now), "2025-09-08");
    assert_eq!(summary_date(Some("2024-08-29"), &now), "2024-08-29");
    let (f, t, label) = minute_range(Some("2024-08-29".to_string()), None);
    assert_eq!((f.as_str(), t.as_str(), label.as_str()), ("2024-08-29", "2024-01-02", "2024-08-29 to 2024-01-02"));
    // Near the earliest date chrono holds, the current date is used.
    let early = UtcInstant::from_timestamp(-8_334_601_228_800 + 11 * 86400, 0).unwrap();
    assert_eq!(days_ago_date(&early, 30), days_ago_date(&early, 0));
}

#[test]
fn system_information() {
    let v = system_version(true);
    assert_eq!(v.version, "9.2.25.1-945055e");
    assert_eq!(v.data_delay_minutes, 15);
    assert_eq!(v.polygon_mode, "delayed");
    let v = system_version(false);
    assert_eq!(v.data_delay_minutes, 0);
    assert_eq!(v.polygon_mode, "real-time");
    assert_eq!(broker_status_message(true), "✅ Broker connected and ready for trading");
    assert_eq!(broker_status_message(false), "❌ Broker not connected");
}

#[test]
fn status_reply_names_the_trading_mode() {
    let r = status_reply(TradingMode::Live, true);
    assert!(r.broker_connected && r.session_active);
    assert_eq!(r.message, "✅ Broker connected and ready for trading");
    assert_eq!(r.trading_mode, "LIVE");
    let r = status_reply(TradingMode::Paper, false);
    assert!(!r.broker_connected && !r.session_active);
    assert_eq!(r.message, "❌ Broker not connected");
    assert_eq!(r.trading_mode, "PAPER");
    assert_eq!(status_reply(TradingMode::Simulation, false).trading_mode, "SIMULATION");
}

#[test]
fn reset_runs_statements_in_order_and_stops_at_the_first_failure() {
    let ok = || Ok(());
    assert_eq!(
        reset_step(ResetStage::Connecting, Err("no db".to_string()), 6),
        (ResetStage::Finished, ResetAction::AnswerFailed(ResetFailure::Connection("no db".to_string())))
    );
    assert_eq!(reset_step(ResetStage::Connecting, ok(), 6), (ResetStage::Beginning, ResetAction::BeginTransaction));
    assert_eq!(
        reset_step(ResetStage::Beginning, Err("busy".to_string()), 6),
        (ResetStage::Finished, ResetAction::AnswerFailed(ResetFailure::Transaction("busy".to_string())))
    );
    let mut step = reset_step(ResetStage::Beginning, ok(), 6);
    assert_eq!(step, (ResetStage::Running(0), ResetAction::Execute(0)));
    for i in 0..5 {
        step = reset_step(step.0, ok(), 6);
        assert_eq!(step, (ResetStage::Running(i + 1), ResetAction::Execute(i + 1)));
    }
    assert_eq!(reset_step(step.0, ok(), 6), (ResetStage::Committing, ResetAction::Commit));
    assert_eq!(
        reset_step(ResetStage::Running(2), Err("locked".to_string()), 6),
        (ResetStage::Finished, ResetAction::RollBack(ResetFailure::Statement("locked".to_string())))
    );
    assert_eq!(reset_step(ResetStage::Committing, ok(), 6), (ResetStage::Finished, ResetAction::AnswerDone));
    assert_eq!(
        reset_step(ResetStage::Committing, Err("disk".to_string()), 6),
        (ResetStage::Finished, ResetAction::AnswerFailed(ResetFailure::Commit("disk".to_string())))
    );
}
