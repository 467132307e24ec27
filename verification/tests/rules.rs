use trading_system::rules::{evaluate_checks, ConditionChecks, RulesEngineState};
use trading_system::config::RulesEngineConfig;
use trading_system::rules::{choose_price, first_reading, indicator_price_volume, PriceLookup};
use chrono::{TimeZone, Utc};
use trading_system::clock::UtcInstant;
use trading_system::config::FallbackChoice;
use trading_system::rules::{
    add_rule, check_engine_config, condition_weight, decision_limits, decision_log_plan, flag_condition_met,
    performance_stats, plan_action, price_sources, remove_rule, risk_level_for, should_execute_action,
    symbol_limit_micros, tally_conditions, volume_condition_met, ConditionEvaluator, ConditionKind,
    ConditionOutcome, DecisionLogLevel, DecisionMetrics, EngineConfigError, PlannedAction, PriceFailure,
    PriceSource, RuleError,
};
use trading_system::store::{CacheCounts, KeyedStore};
use trading_system::types::{RiskLevel, SellReason};

fn at(y: i32, mo: u32, d: u32, h: u32, mi: u32) -> UtcInstant {
    let t = Utc.with_ymd_and_hms(y, mo, d, h, mi, 0).unwrap();
    UtcInstant::from_timestamp(t.timestamp(), 0).unwrap()
}

#[test]
fn risk_level_table() {
    assert_eq!(risk_level_for(true, true, true), RiskLevel::Critical);
    assert_eq!(risk_level_for(true, false, false), RiskLevel::High);
    assert_eq!(risk_level_for(true, true, false), RiskLevel::High);
    assert_eq!(risk_level_for(false, true, true), RiskLevel::High);
    assert_eq!(risk_level_for(false, true, false), RiskLevel::Medium);
    assert_eq!(risk_level_for(false, false, true), RiskLevel::Medium);
    assert_eq!(risk_level_for(false, false, false), RiskLevel::Low);
}

#[test]
fn execution_gate_by_risk() {
    assert!(!should_execute_action(RiskLevel::Critical, 0));
    assert!(should_execute_action(RiskLevel::High, 1));
    assert!(!should_execute_action(RiskLevel::High, 2));
    assert!(should_execute_action(RiskLevel::Medium, 7));
    assert!(should_execute_action(RiskLevel::Low, 0));
}

#[test]
fn tally_passes_only_when_all_conditions_hold() {
    let all_met = vec![
        ConditionOutcome { kind: ConditionKind::MinPrice, met: true },
        ConditionOutcome { kind: ConditionKind::MacdAboveSignal, met: true },
        ConditionOutcome { kind: ConditionKind::MarketHours, met: true },
    ];
    let t = tally_conditions(&all_met);
    assert!(t.passed);
    assert_eq!(t.total_conditions, 3);
    assert_eq!(t.score_hundredths, 40);
    assert_eq!(t.met, vec![ConditionKind::MinPrice, ConditionKind::MacdAboveSignal, ConditionKind::MarketHours]);
    assert!(t.failed.is_empty());

    let one_failed = vec![
        ConditionOutcome { kind: ConditionKind::RsiMin, met: true },
        ConditionOutcome { kind: ConditionKind::VolumeRatio, met: false },
    ];
    let t = tally_conditions(&one_failed);
    assert!(!t.passed);
    assert_eq!(t.score_hundredths, 15);
    assert_eq!(t.failed, vec![ConditionKind::VolumeRatio]);

    let none = tally_conditions(&Vec::new());
    assert!(!none.passed);
    assert_eq!(none.total_conditions, 0);
}

#[test]
fn condition_weights() {
    assert_eq!(condition_weight(ConditionKind::MinPrice), 10);
    assert_eq!(condition_weight(ConditionKind::MinVolume), 15);
    assert_eq!(condition_weight(ConditionKind::VolumeRatio), 20);
    assert_eq!(condition_weight(ConditionKind::MacdAboveSignal), 25);
    assert_eq!(condition_weight(ConditionKind::MarketHours), 5);
}

#[test]
fn simple_condition_checks() {
    assert!(volume_condition_met(1000, 1000));
    assert!(!volume_condition_met(999, 1000));
    assert!(flag_condition_met(true, Some(true)));
    assert!(!flag_condition_met(true, Some(false)));
    assert!(!flag_condition_met(false, None));
}

#[test]
fn market_hours_as_the_evaluator_reads_them() {
    let e = ConditionEvaluator::new();
    // Tuesday 2025-09-09 18:00 UTC, in daylight-saving months: 2:00 PM.
    let t = at(2025, 9, 9, 18, 0);
    assert!(e.is_dst_at(&t));
    assert!(e.is_market_hours_at(&t, true));
    // 13:29 UTC is 9:29 AM with the summer offset: not yet open.
    assert!(!e.is_market_hours_at(&at(2025, 9, 9, 13, 29), true));
    assert!(e.is_market_hours_at(&at(2025, 9, 9, 13, 30), true));
    // 20:00 UTC is 4:00 PM: closed.
    assert!(!e.is_market_hours_at(&at(2025, 9, 9, 20, 0), true));
    // With the winter offset, 14:30 UTC is 9:30 AM.
    assert!(!e.is_dst_at(&at(2025, 1, 14, 14, 30)));
    assert!(e.is_market_hours_at(&at(2025, 1, 14, 14, 30), false));
    // Saturday.
    assert!(!e.is_market_hours_at(&at(2025, 9, 6, 18, 0), true));
    // The shift can move the reading back into the previous day:
    // Tuesday 02:00 UTC is Monday 10:00 PM.
    assert!(!e.is_market_hours_at(&at(2025, 9, 9, 2, 0), true));
    let _ = e.is_market_hours();
    let _ = ConditionEvaluator::default().is_dst();
}

#[test]
fn triggered_rule_actions() {
    assert_eq!(plan_action(Some(40), 10), PlannedAction::Sell { quantity: 40, reason: SellReason::RuleChange });
    assert_eq!(plan_action(None, 12), PlannedAction::Buy { quantity: 12 });
    match plan_action(None, 0) {
        PlannedAction::Hold { reason } => assert_eq!(reason, "Insufficient funds or position size too small"),
        _ => panic!("expected a hold"),
    }
}

#[test]
fn decision_time_limits() {
    let d = decision_limits(None, None);
    assert_eq!(d.max_decision_ms, 5);
    assert_eq!(d.warning_ms, 2);
    let d = decision_limits(Some(40), None);
    assert_eq!(d.warning_ms, 20);
    let d = decision_limits(Some(40), Some(7));
    assert_eq!(d.max_decision_ms, 40);
    assert_eq!(d.warning_ms, 7);
    assert_eq!(symbol_limit_micros(5), 5000);
}

#[test]
fn decision_metrics_average() {
    let mut m = DecisionMetrics::new();
    assert_eq!(m.average_micros(), 0);
    m.record(true, 300);
    m.record(true, 500);
    m.record(false, 10_000);
    assert_eq!(m.decision_count, 2);
    assert_eq!(m.total_decision_time_micros, 800);
    assert_eq!(m.average_micros(), 400);
    let counts = CacheCounts { total_symbols: 3, total_access_count: 9, expired_count: 1 };
    let stats = performance_stats(&m, counts);
    assert_eq!(stats.total_decisions, 2);
    assert_eq!(stats.average_decision_time_micros, 400);
    assert_eq!(stats.cache_stats, counts);
}

#[test]
fn decision_logging_plan() {
    let p = decision_log_plan(false, false, Some(30));
    assert_eq!(p.level, DecisionLogLevel::Skip);
    assert!(!p.keep_history);
    let p = decision_log_plan(true, false, Some(30));
    assert_eq!(p.level, DecisionLogLevel::Info);
    assert!(!p.keep_history);
    let p = decision_log_plan(false, true, Some(30));
    assert_eq!(p.level, DecisionLogLevel::Debug);
    assert!(p.keep_history);
    let p = decision_log_plan(true, true, None);
    assert!(!p.keep_history);
}

#[test]
fn engine_configuration_errors() {
    assert_eq!(check_engine_config(true, None, Some(5)), Err(EngineConfigError::MissingEvaluationInterval));
    assert_eq!(check_engine_config(true, None, None), Err(EngineConfigError::MissingEvaluationInterval));
    assert_eq!(check_engine_config(true, Some(1000), None), Err(EngineConfigError::MissingMaxDecisionTime));
    assert_eq!(check_engine_config(true, Some(1000), Some(5)), Ok(()));
    assert_eq!(check_engine_config(false, None, None), Ok(()));
    assert_eq!(
        EngineConfigError::MissingEvaluationInterval.message(),
        "Rules engine evaluation interval must be configured when enabled"
    );
}

#[test]
fn rules_are_added_and_removed() {
    let mut rules: KeyedStore<u32> = KeyedStore::new();
    add_rule(&mut rules, "r1".to_string(), 7);
    add_rule(&mut rules, "r2".to_string(), 8);
    assert_eq!(remove_rule(&mut rules, "r1"), Ok(7));
    assert_eq!(rules.len(), 1);
    let err = remove_rule(&mut rules, "r1").unwrap_err();
    assert_eq!(err, RuleError::NotFound("r1".to_string()));
    assert_eq!(err.message(), "Rule not found: r1");
}

#[test]
fn price_lookup_order() {
    assert_eq!(
        price_sources(&FallbackChoice::LastKnown),
        vec![PriceSource::CurrentMarket, PriceSource::PreviousDayClose, PriceSource::LastKnown]
    );
    assert_eq!(
        price_sources(&FallbackChoice::UserPrice("12.5".to_string())),
        vec![PriceSource::CurrentMarket, PriceSource::PreviousDayClose, PriceSource::UserConfigured]
    );
    assert_eq!(price_sources(&FallbackChoice::Refuse), vec![PriceSource::CurrentMarket, PriceSource::PreviousDayClose]);
    assert_eq!(PriceFailure::NoLastKnown.message("AAPL"), "No last known price available for AAPL");
    assert_eq!(
        PriceFailure::MarketCloseUnavailable("timeout".to_string()).message("MSFT"),
        "Failed to get market close price for MSFT: timeout"
    );
    assert_eq!(
        PriceFailure::Refused.message("TSLA"),
        "Price fallback strategy is set to refuse execution - no price available for TSLA"
    );
    assert_eq!(PriceFailure::InvalidMarketClose.message("X"), "Invalid market close price for X");
}

#[test]
fn test_market_hours() {
    let evaluator = ConditionEvaluator::new();
    // The answer depends on the current time; the call must not panic.
    let _is_market_hours = evaluator.is_market_hours();
}

#[test]
fn price_chosen_from_the_first_usable_source() {
    let none = || PriceLookup::<f64>::Failed("down".to_string());
    let zero = || PriceLookup::<f64>::NotPositive("0".to_string());
    assert_eq!(
        choose_price(PriceLookup::Positive(10.5), PriceLookup::Positive(9.0), &FallbackChoice::Refuse, none(), None, none()),
        Ok((10.5, PriceSource::CurrentMarket))
    );
    assert_eq!(
        choose_price(zero(), PriceLookup::Positive(9.0), &FallbackChoice::Refuse, none(), None, none()),
        Ok((9.0, PriceSource::PreviousDayClose))
    );
    assert_eq!(choose_price(none(), zero(), &FallbackChoice::Refuse, none(), Some(3.0), none()), Err(PriceFailure::Refused));
    assert_eq!(
        choose_price(none(), zero(), &FallbackChoice::LastKnown, none(), Some(3.0), none()),
        Ok((3.0, PriceSource::LastKnown))
    );
    assert_eq!(choose_price(none(), zero(), &FallbackChoice::LastKnown, none(), None, none()), Err(PriceFailure::NoLastKnown));
    assert_eq!(
        choose_price(none(), zero(), &FallbackChoice::MarketClose, none(), None, PriceLookup::Positive(7.0)),
        Ok((7.0, PriceSource::MarketClose))
    );
    assert_eq!(
        choose_price(none(), zero(), &FallbackChoice::MarketClose, none(), None, zero()),
        Err(PriceFailure::InvalidMarketClose)
    );
    assert_eq!(
        choose_price(none(), zero(), &FallbackChoice::MarketClose, none(), None, none()),
        Err(PriceFailure::MarketCloseUnavailable("down".to_string()))
    );
    let user = FallbackChoice::UserPrice("25".to_string());
    assert_eq!(
        choose_price(none(), zero(), &user, PriceLookup::Positive(25.0), None, none()),
        Ok((25.0, PriceSource::UserConfigured))
    );
    let bad = choose_price(none(), zero(), &user, PriceLookup::<f64>::NotPositive("-1".to_string()), None, none());
    assert_eq!(bad, Err(PriceFailure::InvalidUserPrice("-1".to_string())));
    assert_eq!(bad.unwrap_err().message("AAPL"), "Invalid user configured price: -1");
    assert_eq!(choose_price(none(), zero(), &user, none(), None, none()), Err(PriceFailure::Refused));
}

#[test]
fn fresh_indicator_starting_values() {
    assert_eq!(indicator_price_volume(Some(12.0), Some((11.0, 500)), 100.0), (12.0, 500));
    assert_eq!(indicator_price_volume(Some(12.0), None, 100.0), (12.0, 1_000_000));
    assert_eq!(indicator_price_volume(None, Some((11.0, 500)), 100.0), (11.0, 500));
    assert_eq!(indicator_price_volume(None, None, 100.0), (100.0, 1000));
    assert_eq!(first_reading(&Some(vec![Some(55.5), Some(1.0)])), Some(55.5));
    assert_eq!(first_reading::<f64>(&Some(vec![None, Some(1.0)])), None);
    assert_eq!(first_reading::<f64>(&Some(Vec::new())), None);
    assert_eq!(first_reading::<f64>(&None), None);
}

fn no_checks() -> ConditionChecks {
    ConditionChecks {
        min_price: None,
        max_price: None,
        price_change_min: None,
        min_volume: None,
        volume_ratio: None,
        rsi_min: None,
        rsi_max: None,
        macd_positive: None,
        macd_above_signal: None,
        price_above_ema9: None,
        price_above_sma20: None,
        ema9_increasing: None,
        ema9_above_ema21: None,
        positive_sentiment: None,
        news_sentiment_min: None,
        market_hours: None,
        not_earnings_day: None,
    }
}

#[test]
fn every_set_condition_is_evaluated() {
    // Price 15 reaches the minimum of 10, but EMA9 (10) is not above EMA21 (20).
    let mut c = no_checks();
    c.min_price = Some(15.0 >= 10.0);
    c.ema9_above_ema21 = Some(flag_condition_met(true, Some(10.0 > 20.0)));
    let t = evaluate_checks(&c);
    assert!(!t.passed);
    assert_eq!(t.total_conditions, 2);
    assert_eq!(t.met, vec![ConditionKind::MinPrice]);
    assert_eq!(t.failed, vec![ConditionKind::Ema9AboveEma21]);
    assert_eq!(t.score_hundredths, 10);
    let mut c = no_checks();
    c.price_above_sma20 = Some(true);
    c.not_earnings_day = Some(true);
    c.positive_sentiment = Some(true);
    let t = evaluate_checks(&c);
    assert!(t.passed);
    assert_eq!(t.met, vec![ConditionKind::PriceAboveSma20, ConditionKind::PositiveSentiment, ConditionKind::NotEarningsDay]);
    assert_eq!(t.score_hundredths, 30);
    assert!(!evaluate_checks(&no_checks()).passed);
}

fn engine_config(enabled: bool, interval: Option<u64>, max: Option<u64>) -> RulesEngineConfig {
    RulesEngineConfig {
        enabled,
        evaluation_interval_ms: interval,
        max_decision_time_ms: max,
        warning_threshold_ms: None,
        track_performance: true,
        log_all_decisions: false,
        require_user_confirmation: true,
        decision_history_days: None,
        price_fallback: FallbackChoice::Refuse,
        default_watchlist_symbols: Vec::new(),
        allow_new_positions: None,
        max_concurrent_rules: None,
    }
}

#[test]
fn rules_engine_made_from_its_configuration() {
    assert_eq!(
        RulesEngineState::<u32>::new(&engine_config(true, None, Some(5)), 5).err(),
        Some(EngineConfigError::MissingEvaluationInterval)
    );
    assert_eq!(
        RulesEngineState::<u32>::new(&engine_config(true, Some(100), None), 5).err(),
        Some(EngineConfigError::MissingMaxDecisionTime)
    );
    let e = RulesEngineState::<u32>::new(&engine_config(false, None, None), 5).ok().unwrap();
    assert_eq!(e.rules.len(), 0);
    assert_eq!(e.portfolio.current_position_count(), 0);
    assert!(e.portfolio.can_open_position());
    assert_eq!(e.metrics.decision_count, 0);
    assert!(!e.running);
}
