use chrono::{TimeZone, Utc};
use trading_system::clock::UtcInstant;
use trading_system::market::{ClosedReason, DataSourceStrategy, MarketHoliday, MarketSchedule, MarketStatus, TradingSession};

fn at(y: i32, mo: u32, d: u32, h: u32, mi: u32, s: u32) -> UtcInstant {
    let t = Utc.with_ymd_and_hms(y, mo, d, h, mi, s).unwrap();
    UtcInstant::from_timestamp(t.timestamp(), t.timestamp_subsec_nanos()).unwrap()
}

#[test]
fn test_regular_hours_open() {
    // Tuesday 2:00 PM ET = 6:00 PM UTC (during regular hours)
    let schedule = MarketSchedule::new().with_time(at(2025, 9, 9, 18, 0, 0));
    assert_eq!(schedule.get_market_status(), MarketStatus::Open);
    assert_eq!(schedule.get_trading_session(), TradingSession::RegularHours);
}

#[test]
fn test_after_hours_open() {
    // Tuesday 6:00 PM ET = 10:00 PM UTC (after hours)
    let schedule = MarketSchedule::new().with_time(at(2025, 9, 9, 22, 0, 0));
    assert_eq!(schedule.get_market_status(), MarketStatus::Open);
    assert_eq!(schedule.get_trading_session(), TradingSession::AfterHours);
}

#[test]
fn test_weekend_closed() {
    // Saturday 2:00 PM ET = 6:00 PM UTC (weekend)
    let schedule = MarketSchedule::new().with_time(at(2025, 9, 6, 18, 0, 0));
    assert_eq!(schedule.get_market_status(), MarketStatus::Closed);
    assert_eq!(schedule.get_trading_session(), TradingSession::Closed);
}

#[test]
fn test_night_closed() {
    // Tuesday 11:00 PM ET = 3:00 AM+1 UTC (outside hours)
    let schedule = MarketSchedule::new().with_time(at(2025, 9, 10, 3, 0, 0));
    assert_eq!(schedule.get_market_status(), MarketStatus::Closed);
    assert_eq!(schedule.get_trading_session(), TradingSession::Closed);
}

#[test]
fn test_data_source_strategy() {
    let schedule = MarketSchedule::new().with_time(at(2025, 9, 9, 18, 0, 0));
    match schedule.get_data_source_strategy() {
        DataSourceStrategy::RealTime { session, market_date } => {
            assert_eq!(session, TradingSession::RegularHours);
            assert_eq!(market_date, "2025-09-09");
        }
        _ => panic!("Expected RealTime strategy during market hours"),
    }

    let schedule = MarketSchedule::new().with_time(at(2025, 9, 10, 3, 0, 0));
    match schedule.get_data_source_strategy() {
        DataSourceStrategy::PreviousDay { summary_date, reason } => {
            assert_eq!(summary_date, "2025-09-09");
            assert!(matches!(reason, ClosedReason::OutsideHours));
        }
        _ => panic!("Expected PreviousDay strategy during closed hours"),
    }
}

#[test]
fn pre_market_session_before_regular_open() {
    // Tuesday 5:00 AM ET = 9:00 AM UTC
    let schedule = MarketSchedule::new().with_time(at(2025, 9, 9, 9, 0, 0));
    assert_eq!(schedule.get_market_status(), MarketStatus::Open);
    assert_eq!(schedule.get_trading_session(), TradingSession::PreMarket);
}

#[test]
fn session_edges_follow_the_clock() {
    // 4:00 AM ET opens, 9:30 AM ET starts the regular session, 4:00 PM ET
    // starts after-hours and the market closes after 8:00 PM ET (EDT, UTC-4).
    let open = MarketSchedule::new().with_time(at(2025, 9, 9, 8, 0, 0));
    assert_eq!(open.get_trading_session(), TradingSession::PreMarket);
    let before_open = MarketSchedule::new().with_time(at(2025, 9, 9, 7, 59, 59));
    assert_eq!(before_open.get_trading_session(), TradingSession::Closed);
    let regular = MarketSchedule::new().with_time(at(2025, 9, 9, 13, 30, 0));
    assert_eq!(regular.get_trading_session(), TradingSession::RegularHours);
    let after = MarketSchedule::new().with_time(at(2025, 9, 9, 20, 0, 0));
    assert_eq!(after.get_trading_session(), TradingSession::AfterHours);
    // 8:00:00 PM itself still counts as after-hours.
    let last = MarketSchedule::new().with_time(at(2025, 9, 10, 0, 0, 0));
    assert_eq!(last.get_trading_session(), TradingSession::AfterHours);
    let closed = MarketSchedule::new().with_time(at(2025, 9, 10, 0, 0, 1));
    assert_eq!(closed.get_trading_session(), TradingSession::Closed);
    assert_eq!(closed.get_market_status(), MarketStatus::Closed);
}

#[test]
fn holiday_closes_the_market_and_is_skipped_by_the_lookback() {
    let mut schedule = MarketSchedule::new().with_time(at(2025, 9, 1, 18, 0, 0));
    let rows = vec![
        ("2025-09-01".to_string(), "Labor Day".to_string(), "closed".to_string()),
        ("2025-11-28".to_string(), "Day after Thanksgiving".to_string(), "early_close".to_string()),
    ];
    schedule.load_holidays_from_rows(&rows, &at(2025, 9, 1, 12, 0, 0));
    assert_eq!(schedule.get_market_status(), MarketStatus::Closed);
    assert_eq!(schedule.get_trading_session(), TradingSession::Closed);
    match schedule.get_data_source_strategy() {
        DataSourceStrategy::PreviousDay { summary_date, reason } => {
            // Monday is the holiday; the weekend before is skipped too.
            assert_eq!(summary_date, "2025-08-29");
            assert!(matches!(reason, ClosedReason::Holiday(_)));
        }
        _ => panic!("Expected PreviousDay strategy on a holiday"),
    }
}

#[test]
fn weekend_summary_comes_from_friday() {
    let schedule = MarketSchedule::new().with_time(at(2025, 9, 6, 18, 0, 0));
    match schedule.get_data_source_strategy() {
        DataSourceStrategy::PreviousDay { summary_date, reason } => {
            assert_eq!(summary_date, "2025-09-05");
            assert!(matches!(reason, ClosedReason::Weekend));
        }
        _ => panic!("Expected PreviousDay strategy on a weekend"),
    }
}

#[test]
fn recorded_holidays_keep_only_closed_days() {
    let mut schedule = MarketSchedule::new().with_time(at(2025, 11, 28, 15, 0, 0));
    let holidays = vec![MarketHoliday {
        date: "2025-11-28".to_string(),
        name: "Day after Thanksgiving".to_string(),
        status: "early_close".to_string(),
        open: None,
        close: None,
    }];
    schedule.record_holidays(&holidays, &at(2025, 11, 28, 12, 0, 0));
    // An early close is not a closed day.
    assert_eq!(schedule.get_market_status(), MarketStatus::Open);
}

#[test]
fn holiday_refresh_is_due_after_a_day() {
    let mut schedule = MarketSchedule::new().with_time(at(2025, 9, 9, 18, 0, 0));
    assert!(schedule.should_refresh_holidays_at(&at(2025, 9, 9, 18, 0, 0)));
    let rows = vec![("2025-12-25".to_string(), "Christmas".to_string(), "closed".to_string())];
    schedule.load_holidays_from_rows(&rows, &at(2025, 9, 9, 12, 0, 0));
    assert!(!schedule.should_refresh_holidays_at(&at(2025, 9, 9, 18, 0, 0)));
    // 24 hours and a second is not yet more than 24 whole hours.
    assert!(!schedule.should_refresh_holidays_at(&at(2025, 9, 10, 12, 0, 1)));
    assert!(!schedule.should_refresh_holidays_at(&at(2025, 9, 10, 12, 59, 59)));
    assert!(schedule.should_refresh_holidays_at(&at(2025, 9, 10, 13, 0, 0)));
}

#[test]
fn status_description_names_the_session_and_date() {
    let schedule = MarketSchedule::new().with_time(at(2025, 9, 9, 18, 0, 0));
    let text = schedule.get_status_description();
    assert!(text.contains("2025-09-09"));
    let closed = MarketSchedule::new().with_time(at(2025, 9, 10, 3, 0, 0));
    let text = closed.get_status_description();
    assert!(text.contains("2025-09-09"));
}

#[test]
fn instants_outside_the_calendar_are_refused() {
    assert!(UtcInstant::from_timestamp(0, 1_000_000_000).is_none());
    assert!(UtcInstant::from_timestamp(i64::MAX, 0).is_none());
    assert!(UtcInstant::from_timestamp(0, 0).is_some());
}

#[test]
fn daily_bar_day_by_market_status() {
    // Open before 4:00 PM ET: the UTC date of the day before now.
    let schedule = MarketSchedule::new().with_time(at(2025, 9, 9, 18, 0, 0));
    assert_eq!(schedule.daily_bar_date_at(&at(2025, 9, 9, 18, 0, 0)), "2025-09-08");
    assert_eq!(schedule.daily_bar_date_at(&at(2025, 9, 10, 1, 0, 0)), "2025-09-09");
    // Open after 4:00 PM ET: the market date.
    let late = MarketSchedule::new().with_time(at(2025, 9, 9, 21, 0, 0));
    assert_eq!(late.daily_bar_date_at(&at(2025, 9, 9, 21, 0, 0)), "2025-09-09");
    // Closed: the summary date.
    let closed = MarketSchedule::new().with_time(at(2025, 9, 6, 18, 0, 0));
    assert_eq!(closed.daily_bar_date_at(&at(2025, 9, 6, 18, 0, 0)), "2025-09-05");
    assert_eq!(closed.daily_bar_date(), "2025-09-05");
}
