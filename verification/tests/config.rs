use trading_system::config::{config_from, ConfigSettings};
use trading_system::config::{
    fallback_choice, lightspeed_config_from, max_memory_bytes, max_memory_from, parse_bool, parse_flag,
    parse_optional_bool, parse_optional_u32, parse_optional_u64, rules_engine_config_from, rules_engine_ready,
    setting_or, validate_config, RulesEngineSettings,
    websocket_config_from, ConfigError, ConfigFacts, ConfigVar, ConfigWarning, FallbackChoice, TradingMode,
    WebSocketSettings,
};

fn settings() -> WebSocketSettings {
    WebSocketSettings {
        enable: Some("true".to_string()),
        reconnect_interval: Some("5".to_string()),
        heartbeat_interval: Some("30".to_string()),
        max_subscriptions: Some("100".to_string()),
        buffer_size: Some("1000".to_string()),
        default_subscriptions: Some(" AAPL, MSFT ,,TSLA".to_string()),
        auto_subscribe_movers: Some("false".to_string()),
    }
}

#[test]
fn trading_modes() {
    assert_eq!(TradingMode::from_setting(Some("live")), TradingMode::Live);
    assert_eq!(TradingMode::from_setting(Some("Simulation")), TradingMode::Simulation);
    assert_eq!(TradingMode::from_setting(Some("anything")), TradingMode::Paper);
    assert_eq!(TradingMode::from_setting(None), TradingMode::Paper);
    assert_eq!(TradingMode::default(), TradingMode::Paper);
    assert_eq!(TradingMode::Live.mode_name(), "LIVE");
    assert_eq!(TradingMode::Live.description(), "Live Trading Mode - Real money trading");
}

#[test]
fn boolean_and_number_settings() {
    assert_eq!(parse_bool("true"), Some(true));
    assert_eq!(parse_bool("TRUE"), None);
    assert!(parse_flag(Some("nope"), true));
    assert!(!parse_flag(Some("false"), true));
    assert_eq!(parse_optional_u64(Some("+42")), Some(42));
    assert_eq!(parse_optional_u64(Some("-1")), None);
    assert_eq!(parse_optional_u32(Some("4294967296")), None);
    assert_eq!(parse_optional_u32(Some("4294967295")), Some(u32::MAX));
    assert_eq!(parse_optional_bool(None), None);
    assert_eq!(max_memory_from(None), Ok(1024));
    assert_eq!(max_memory_from(Some("x")), Err(ConfigError::NotNumber(ConfigVar::MaxMemoryMb)));
    assert_eq!(ConfigError::NotNumber(ConfigVar::MaxMemoryMb).message(), "MAX_MEMORY_MB must be a valid number");
    assert_eq!(max_memory_bytes(2), 2 * 1024 * 1024);
    assert!(rules_engine_ready(true, Some(1), Some(2)));
    assert!(!rules_engine_ready(true, None, Some(2)));
}

#[test]
fn websocket_settings_are_all_required() {
    let c = websocket_config_from(true, &settings()).unwrap().unwrap();
    assert!(c.enabled);
    assert_eq!(c.reconnect_interval_secs, 5);
    assert_eq!(c.buffer_size, 1000);
    assert_eq!(c.default_subscriptions, vec!["AAPL".to_string(), "MSFT".to_string(), "TSLA".to_string()]);
    assert!(!c.auto_subscribe_movers);
    assert!(websocket_config_from(false, &settings()).unwrap().is_none());

    let mut s = settings();
    s.heartbeat_interval = None;
    s.buffer_size = Some("big".to_string());
    let e = websocket_config_from(true, &s).unwrap_err();
    assert_eq!(e, ConfigError::NotSet(ConfigVar::PolygonWebsocketHeartbeatInterval));
    assert_eq!(e.message(), "POLYGON_WEBSOCKET_HEARTBEAT_INTERVAL not set");

    let mut s = settings();
    s.auto_subscribe_movers = Some("yes".to_string());
    assert_eq!(
        websocket_config_from(true, &s).unwrap_err(),
        ConfigError::NotBool(ConfigVar::PolygonAutoSubscribeMovers)
    );
    let mut s = settings();
    s.max_subscriptions = Some("lots".to_string());
    assert_eq!(
        websocket_config_from(true, &s).unwrap_err(),
        ConfigError::NotNumber(ConfigVar::PolygonWebsocketMaxSubscriptions)
    );
}

#[test]
fn lightspeed_settings_defaults() {
    let c = lightspeed_config_from(Some("KEY".to_string()), Some("ACC".to_string()), None, None, None).unwrap();
    assert_eq!(c.connection_url, "wss://onboarding.connecttrade.com:28052");
    assert_eq!(c.client_id, "LIGHTSPEED");
    assert!(c.sandbox);
    let c = lightspeed_config_from(Some("K".to_string()), Some("A".to_string()), None, None, Some("false".to_string()))
        .unwrap();
    assert!(!c.sandbox);
    assert!(lightspeed_config_from(Some("K".to_string()), None, None, None, None).is_none());
}

#[test]
fn configuration_check_and_warnings() {
    let facts = ConfigFacts {
        enable_polygon: true,
        has_polygon_key: false,
        enable_lightspeed: false,
        lightspeed_key_len: None,
        max_memory_mb: 8192,
        rules_enabled: true,
        rules_interval_set: false,
        rules_decision_time_set: true,
        rules_watchlist_empty: true,
    };
    assert_eq!(
        validate_config(&facts).unwrap(),
        vec![
            ConfigWarning::PolygonKeyMissing,
            ConfigWarning::LargeMemory,
            ConfigWarning::NoDataSources,
            ConfigWarning::RulesIntervalUnset,
            ConfigWarning::RulesWatchlistEmpty,
        ]
    );
    let zero = ConfigFacts { max_memory_mb: 0, ..facts };
    assert_eq!(validate_config(&zero), Err(ConfigError::MaxMemoryZero));
}

#[test]
fn fallback_price_settings() {
    assert!(matches!(fallback_choice(Some("last_known")), FallbackChoice::LastKnown));
    assert!(matches!(fallback_choice(Some("MARKET_CLOSE")), FallbackChoice::MarketClose));
    match fallback_choice(Some("user_12.5")) {
        FallbackChoice::UserPrice(t) => assert_eq!(t, "12.5"),
        _ => panic!("expected a user price"),
    }
    assert!(matches!(fallback_choice(None), FallbackChoice::Refuse));
}

fn rules_settings() -> RulesEngineSettings {
    RulesEngineSettings {
        enabled: None,
        evaluation_interval_ms: None,
        max_decision_time_ms: None,
        warning_threshold_ms: None,
        track_performance: None,
        log_all_decisions: None,
        require_user_confirmation: None,
        decision_history_days: None,
        fallback_price_source: None,
        default_watchlist_symbols: None,
        allow_new_positions: None,
        max_concurrent_rules: None,
    }
}

#[test]
fn rules_engine_settings_defaults() {
    let c = rules_engine_config_from(&rules_settings());
    assert!(!c.enabled);
    assert_eq!(c.evaluation_interval_ms, None);
    assert!(c.track_performance);
    assert!(!c.log_all_decisions);
    assert!(c.require_user_confirmation);
    assert!(matches!(c.price_fallback, FallbackChoice::Refuse));
    assert!(c.default_watchlist_symbols.is_empty());
    assert_eq!(c.allow_new_positions, None);
}

#[test]
fn rules_engine_settings_read() {
    let mut s = rules_settings();
    s.enabled = Some("true".to_string());
    s.evaluation_interval_ms = Some("1000".to_string());
    s.max_decision_time_ms = Some("five".to_string());
    s.decision_history_days = Some("30".to_string());
    s.fallback_price_source = Some("market_close".to_string());
    s.default_watchlist_symbols = Some("AAPL, MSFT".to_string());
    s.allow_new_positions = Some("false".to_string());
    s.max_concurrent_rules = Some("4294967296".to_string());
    let c = rules_engine_config_from(&s);
    assert!(c.enabled);
    assert_eq!(c.evaluation_interval_ms, Some(1000));
    assert_eq!(c.max_decision_time_ms, None);
    assert_eq!(c.decision_history_days, Some(30));
    assert!(matches!(c.price_fallback, FallbackChoice::MarketClose));
    assert_eq!(c.default_watchlist_symbols, vec!["AAPL".to_string(), "MSFT".to_string()]);
    assert_eq!(c.allow_new_positions, Some(false));
    assert_eq!(c.max_concurrent_rules, None);
    assert_eq!(setting_or(None, "127.0.0.1:8080"), "127.0.0.1:8080");
    assert_eq!(setting_or(Some("0.0.0.0:80".to_string()), "x"), "0.0.0.0:80");
}

fn empty_rules() -> RulesEngineSettings {
    RulesEngineSettings {
        enabled: None,
        evaluation_interval_ms: None,
        max_decision_time_ms: None,
        warning_threshold_ms: None,
        track_performance: None,
        log_all_decisions: None,
        require_user_confirmation: None,
        decision_history_days: None,
        fallback_price_source: None,
        default_watchlist_symbols: None,
        allow_new_positions: None,
        max_concurrent_rules: None,
    }
}

fn empty_settings() -> ConfigSettings {
    ConfigSettings {
        database_url: None,
        polygon_api_key: None,
        polygon_use_delayed_data: None,
        websocket: WebSocketSettings {
            enable: None,
            reconnect_interval: None,
            heartbeat_interval: None,
            max_subscriptions: None,
            buffer_size: None,
            default_subscriptions: None,
            auto_subscribe_movers: None,
        },
        lightspeed_api_key: None,
        lightspeed_account_id: None,
        lightspeed_connection_url: None,
        lightspeed_client_id: None,
        lightspeed_sandbox: None,
        enable_polygon: None,
        enable_lightspeed: None,
        paper_enable_commission: None,
        paper_session_id: None,
        rules: empty_rules(),
        trading_mode: None,
        max_memory_mb: None,
        bind_address: None,
        metrics_address: None,
    }
}

#[test]
fn configuration_defaults_with_nothing_set() {
    let c = config_from(empty_settings()).ok().unwrap();
    assert_eq!(c.database_url, "sqlite:./data/trading.db");
    assert_eq!(c.polygon_api_key, None);
    assert!(c.polygon_use_delayed_data);
    assert!(c.polygon_websocket_config.is_none());
    assert!(c.lightspeed_config.is_none());
    assert!(c.enable_polygon && c.enable_lightspeed && c.paper_enable_commission);
    assert_eq!(c.paper_session_id, "default-session");
    assert_eq!(c.trading_mode, TradingMode::Paper);
    assert_eq!(c.max_memory_mb, 1024);
    assert_eq!(c.bind_address, "127.0.0.1:8080");
    assert_eq!(c.metrics_address, "127.0.0.1:9090");
    assert!(!c.rules_engine_config.enabled);
    assert!(matches!(c.rules_engine_config.price_fallback, FallbackChoice::Refuse));
}

#[test]
fn configuration_errors_in_reading_order() {
    let mut s = empty_settings();
    s.polygon_api_key = Some("K".to_string());
    s.websocket.enable = Some("maybe".to_string());
    s.max_memory_mb = Some("lots".to_string());
    assert_eq!(
        config_from(s).err(),
        Some(ConfigError::NotBool(ConfigVar::PolygonEnableWebsocket))
    );
    let mut s = empty_settings();
    s.max_memory_mb = Some("lots".to_string());
    assert_eq!(config_from(s).err(), Some(ConfigError::NotNumber(ConfigVar::MaxMemoryMb)));
    let mut s = empty_settings();
    s.trading_mode = Some("live".to_string());
    s.bind_address = Some("0.0.0.0:80".to_string());
    s.polygon_use_delayed_data = Some("false".to_string());
    let c = config_from(s).ok().unwrap();
    assert_eq!(c.trading_mode, TradingMode::Live);
    assert_eq!(c.bind_address, "0.0.0.0:80");
    assert!(!c.polygon_use_delayed_data);
}
