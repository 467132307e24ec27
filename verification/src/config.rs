//! Configuration values read from the environment: trading mode, broker and
//! streaming settings, and the checks made on them.
use vstd::prelude::*;
use vstd::string::*;
use crate::text::{
    uppercase_of, to_uppercase_text, parse_unsigned, parse_unsigned_spec, parse_list, list_of,
    texts_of, same_text, begins_with, text_after,
};

verus! {

/// How orders are executed.
#[derive(Debug, Clone, Copy, PartialEq, Eq, Structural)]
pub enum TradingMode {
    /// Simulated fills with real market data.
    Paper,
    /// Real orders through the LightSpeed broker.
    Live,
    /// Paper trading with simulated delays.
    Simulation,
}

impl Default for TradingMode {
    fn default() -> (r: Self)
        ensures
            r == TradingMode::Paper,
    {
        TradingMode::Paper
    }
}

/// The trading mode a `TRADING_MODE` setting selects (upper-cased; unset
/// means "PAPER"; anything unknown means paper trading).
pub open spec fn trading_mode_of(setting: Option<Seq<char>>) -> TradingMode {
    match setting {
        Some(text) => {
            let upper = uppercase_of(text);
            if upper == "LIVE"@ {
                TradingMode::Live
            } else if upper == "SIMULATION"@ {
                TradingMode::Simulation
            } else {
                TradingMode::Paper
            }
        },
        None => TradingMode::Paper,
    }
}

/// Live trading is chosen only by a setting that reads `LIVE` once
/// upper-cased; an unset or unknown setting means paper trading.
pub proof fn law_live_only_when_requested(setting: Option<Seq<char>>)
    ensures
        trading_mode_of(setting) == TradingMode::Live ==> (setting is Some && uppercase_of(setting->0) == "LIVE"@),
        setting is None ==> trading_mode_of(setting) == TradingMode::Paper,
{
}

impl TradingMode {
    /// The mode a `TRADING_MODE` setting selects.
    pub fn from_setting(setting: Option<&str>) -> (r: TradingMode)
        ensures
            r == trading_mode_of(match setting {
                Some(t) => Some(t@),
                None => None,
            }),
    {
        let upper = match setting {
            Some(t) => to_uppercase_text(t),
            None => return TradingMode::Paper,
        };
        if same_text(upper.as_str(), "LIVE") {
            TradingMode::Live
        } else if same_text(upper.as_str(), "SIMULATION") {
            TradingMode::Simulation
        } else {
            TradingMode::Paper
        }
    }

    /// The mode's name as the status service reports it.
    pub fn mode_name(&self) -> (r: &'static str)
        ensures
            r@ == match *self {
                TradingMode::Paper => "PAPER"@,
                TradingMode::Live => "LIVE"@,
                TradingMode::Simulation => "SIMULATION"@,
            },
    {
        match self {
            TradingMode::Paper => "PAPER",
            TradingMode::Live => "LIVE",
            TradingMode::Simulation => "SIMULATION",
        }
    }

    /// A one-line description of the mode.
    pub fn description(&self) -> (r: &'static str)
        ensures
            r@ == match *self {
                TradingMode::Paper => "Paper Trading Mode - Virtual portfolio with real market data"@,
                TradingMode::Live => "Live Trading Mode - Real money trading"@,
                TradingMode::Simulation => "Simulation Mode - Backtesting and strategy validation"@,
            },
    {
        match self {
            TradingMode::Paper => "Paper Trading Mode - Virtual portfolio with real market data",
            TradingMode::Live => "Live Trading Mode - Real money trading",
            TradingMode::Simulation => "Simulation Mode - Backtesting and strategy validation",
        }
    }
}

/// Settings of the streaming-data connection.
#[derive(Debug, Clone)]
pub struct PolygonWebSocketConfig {
    pub enabled: bool,
    pub reconnect_interval_secs: u64,
    pub heartbeat_interval_secs: u64,
    pub max_subscriptions: usize,
    pub buffer_size: usize,
    pub default_subscriptions: Vec<String>,
    pub auto_subscribe_movers: bool,
}

/// Settings of the LightSpeed broker connection.
#[derive(Debug, Clone)]
pub struct LightspeedConfig {
    pub api_key: String,
    pub connection_url: String,
    pub client_id: String,
    pub account_id: String,
    pub sandbox: bool,
}

/// The environment settings that a configuration error names.
#[derive(Debug, Clone, Copy, PartialEq, Eq, Structural)]
pub enum ConfigVar {
    PolygonEnableWebsocket,
    PolygonWebsocketReconnectInterval,
    PolygonWebsocketHeartbeatInterval,
    PolygonWebsocketMaxSubscriptions,
    PolygonWebsocketBufferSize,
    PolygonDefaultSubscriptions,
    PolygonAutoSubscribeMovers,
    MaxMemoryMb,
}

/// The environment variable's name.
pub open spec fn var_name(v: ConfigVar) -> Seq<char> {
    match v {
        ConfigVar::PolygonEnableWebsocket => "POLYGON_ENABLE_WEBSOCKET"@,
        ConfigVar::PolygonWebsocketReconnectInterval => "POLYGON_WEBSOCKET_RECONNECT_INTERVAL"@,
        ConfigVar::PolygonWebsocketHeartbeatInterval => "POLYGON_WEBSOCKET_HEARTBEAT_INTERVAL"@,
        ConfigVar::PolygonWebsocketMaxSubscriptions => "POLYGON_WEBSOCKET_MAX_SUBSCRIPTIONS"@,
        ConfigVar::PolygonWebsocketBufferSize => "POLYGON_WEBSOCKET_BUFFER_SIZE"@,
        ConfigVar::PolygonDefaultSubscriptions => "POLYGON_DEFAULT_SUBSCRIPTIONS"@,
        ConfigVar::PolygonAutoSubscribeMovers => "POLYGON_AUTO_SUBSCRIBE_MOVERS"@,
        ConfigVar::MaxMemoryMb => "MAX_MEMORY_MB"@,
    }
}

impl ConfigVar {
    /// The environment variable's name.
    pub fn name(&self) -> (r: &'static str)
        ensures
            r@ == var_name(*self),
    {
        match self {
            ConfigVar::PolygonEnableWebsocket => "POLYGON_ENABLE_WEBSOCKET",
            ConfigVar::PolygonWebsocketReconnectInterval => "POLYGON_WEBSOCKET_RECONNECT_INTERVAL",
            ConfigVar::PolygonWebsocketHeartbeatInterval => "POLYGON_WEBSOCKET_HEARTBEAT_INTERVAL",
            ConfigVar::PolygonWebsocketMaxSubscriptions => "POLYGON_WEBSOCKET_MAX_SUBSCRIPTIONS",
            ConfigVar::PolygonWebsocketBufferSize => "POLYGON_WEBSOCKET_BUFFER_SIZE",
            ConfigVar::PolygonDefaultSubscriptions => "POLYGON_DEFAULT_SUBSCRIPTIONS",
            ConfigVar::PolygonAutoSubscribeMovers => "POLYGON_AUTO_SUBSCRIBE_MOVERS",
            ConfigVar::MaxMemoryMb => "MAX_MEMORY_MB",
        }
    }
}

/// Why a configuration cannot be used.
#[derive(Debug, Clone, Copy, PartialEq, Eq, Structural)]
pub enum ConfigError {
    /// A required setting is missing.
    NotSet(ConfigVar),
    /// A setting that must be `true` or `false` is something else.
    NotBool(ConfigVar),
    /// A setting that must be a number is something else.
    NotNumber(ConfigVar),
    /// The memory limit is zero.
    MaxMemoryZero,
}

impl ConfigError {
    /// The error's text.
    pub fn message(&self) -> (r: String)
        ensures
            r@ == match *self {
                ConfigError::NotSet(v) => var_name(v) + " not set"@,
                ConfigError::NotBool(v) => var_name(v) + " must be true or false"@,
                ConfigError::NotNumber(v) => if v == ConfigVar::MaxMemoryMb {
                    "MAX_MEMORY_MB must be a valid number"@
                } else {
                    var_name(v) + " must be a number"@
                },
                ConfigError::MaxMemoryZero => "Max memory must be greater than 0"@,
            },
    {
        match self {
            ConfigError::NotSet(v) => {
                let mut s = String::from_str(v.name());
                s.append(" not set");
                s
            },
            ConfigError::NotBool(v) => {
                let mut s = String::from_str(v.name());
                s.append(" must be true or false");
                s
            },
            ConfigError::NotNumber(ConfigVar::MaxMemoryMb) => String::from_str(
                "MAX_MEMORY_MB must be a valid number",
            ),
            ConfigError::NotNumber(v) => {
                let mut s = String::from_str(v.name());
                s.append(" must be a number");
                s
            },
            ConfigError::MaxMemoryZero => String::from_str("Max memory must be greater than 0"),
        }
    }
}

/// What `bool`'s `parse` gives for a text: only "true" and "false" parse.
pub open spec fn bool_of(t: Seq<char>) -> Option<bool> {
    if t == "true"@ {
        Some(true)
    } else if t == "false"@ {
        Some(false)
    } else {
        None
    }
}

pub open spec fn opt_text(o: Option<String>) -> Option<Seq<char>> {
    match o {
        Some(s) => Some(s@),
        None => None,
    }
}

/// Parses "true" or "false".
pub fn parse_bool(t: &str) -> (r: Option<bool>)
    ensures
        r == bool_of(t@),
{
    if same_text(t, "true") {
        Some(true)
    } else if same_text(t, "false") {
        Some(false)
    } else {
        None
    }
}

/// A boolean setting with a default: the default where the setting is unset
/// or is neither "true" nor "false".
pub fn parse_flag(value: Option<&str>, default: bool) -> (r: bool)
    ensures
        r == match value {
            Some(t) => match bool_of(t@) {
                Some(b) => b,
                None => default,
            },
            None => default,
        },
{
    match value {
        Some(t) => match parse_bool(t) {
            Some(b) => b,
            None => default,
        },
        None => default,
    }
}

/// An optional number setting: `None` where it is unset or not a number.
pub fn parse_optional_u64(value: Option<&str>) -> (r: Option<u64>)
    ensures
        r == match value {
            Some(t) => match parse_unsigned_spec(t@, u64::MAX as nat) {
                Some(v) => Some(v as u64),
                None => None,
            },
            None => None,
        },
{
    match value {
        Some(t) => parse_unsigned(t, u64::MAX),
        None => None,
    }
}

/// An optional number setting of 32 bits: `None` where it is unset or not
/// such a number.
pub fn parse_optional_u32(value: Option<&str>) -> (r: Option<u32>)
    ensures
        r == match value {
            Some(t) => match parse_unsigned_spec(t@, u32::MAX as nat) {
                Some(v) => Some(v as u32),
                None => None,
            },
            None => None,
        },
{
    match value {
        Some(t) => match parse_unsigned(t, u32::MAX as u64) {
            Some(v) => Some(v as u32),
            None => None,
        },
        None => None,
    }
}

/// An optional boolean setting: `None` where it is unset or neither "true"
/// nor "false".
pub fn parse_optional_bool(value: Option<&str>) -> (r: Option<bool>)
    ensures
        r == match value {
            Some(t) => bool_of(t@),
            None => None,
        },
{
    match value {
        Some(t) => parse_bool(t),
        None => None,
    }
}

/// The memory limit in megabytes: "1024" when unset, an error when it is not
/// a number.
pub fn max_memory_from(value: Option<&str>) -> (r: Result<u64, ConfigError>)
    ensures
        match parse_unsigned_spec(
            match value {
                Some(t) => t@,
                None => "1024"@,
            },
            u64::MAX as nat,
        ) {
            Some(v) => r == Ok::<u64, ConfigError>(v as u64),
            None => r == Err::<u64, ConfigError>(ConfigError::NotNumber(ConfigVar::MaxMemoryMb)),
        },
{
    let parsed = match value {
        Some(t) => parse_unsigned(t, u64::MAX),
        None => parse_unsigned("1024", u64::MAX),
    };
    match parsed {
        Some(v) => Ok(v),
        None => Err(ConfigError::NotNumber(ConfigVar::MaxMemoryMb)),
    }
}

/// Where a price comes from when no market price is available, as a
/// `RULES_FALLBACK_PRICE_SOURCE` setting names it.
#[derive(Debug, Clone)]
pub enum FallbackChoice {
    LastKnown,
    MarketClose,
    /// A fixed price; the text after `USER_`, still to be read as a number.
    UserPrice(String),
    Refuse,
}

pub enum FallbackChoiceView {
    LastKnown,
    MarketClose,
    UserPrice(Seq<char>),
    Refuse,
}

impl View for FallbackChoice {
    type V = FallbackChoiceView;

    open spec fn view(&self) -> FallbackChoiceView {
        match self {
            FallbackChoice::LastKnown => FallbackChoiceView::LastKnown,
            FallbackChoice::MarketClose => FallbackChoiceView::MarketClose,
            FallbackChoice::UserPrice(t) => FallbackChoiceView::UserPrice(t@),
            FallbackChoice::Refuse => FallbackChoiceView::Refuse,
        }
    }
}

pub open spec fn fallback_choice_of(setting: Option<Seq<char>>) -> FallbackChoiceView {
    match setting {
        Some(t) => {
            let upper = uppercase_of(t);
            if upper == "LAST_KNOWN"@ {
                FallbackChoiceView::LastKnown
            } else if upper == "MARKET_CLOSE"@ {
                FallbackChoiceView::MarketClose
            } else if 5 <= upper.len() && upper.subrange(0, 5) == "USER_"@ {
                FallbackChoiceView::UserPrice(upper.subrange(5, upper.len() as int))
            } else {
                FallbackChoiceView::Refuse
            }
        },
        None => FallbackChoiceView::Refuse,
    }
}

/// Reads a `RULES_FALLBACK_PRICE_SOURCE` setting (upper-cased; unset means
/// "REFUSE").
pub fn fallback_choice(setting: Option<&str>) -> (r: FallbackChoice)
    ensures
        r@ == fallback_choice_of(match setting {
            Some(t) => Some(t@),
            None => None,
        }),
{
    let upper = match setting {
        Some(t) => to_uppercase_text(t),
        None => return FallbackChoice::Refuse,
    };
    proof {
        reveal_strlit("USER_");
    }
    if same_text(upper.as_str(), "LAST_KNOWN") {
        FallbackChoice::LastKnown
    } else if same_text(upper.as_str(), "MARKET_CLOSE") {
        FallbackChoice::MarketClose
    } else if begins_with(upper.as_str(), "USER_") {
        FallbackChoice::UserPrice(text_after(upper.as_str(), 5))
    } else {
        FallbackChoice::Refuse
    }
}

/// The streaming settings as read from the environment.
pub struct WebSocketSettings {
    pub enable: Option<String>,
    pub reconnect_interval: Option<String>,
    pub heartbeat_interval: Option<String>,
    pub max_subscriptions: Option<String>,
    pub buffer_size: Option<String>,
    pub default_subscriptions: Option<String>,
    pub auto_subscribe_movers: Option<String>,
}

/// The first problem with a required boolean setting.
pub open spec fn bool_problem(v: Option<String>, var: ConfigVar) -> Option<ConfigError> {
    match v {
        None => Some(ConfigError::NotSet(var)),
        Some(t) => if bool_of(t@) is None { Some(ConfigError::NotBool(var)) } else { None },
    }
}

/// The first problem with a required number setting.
pub open spec fn number_problem(v: Option<String>, var: ConfigVar, max: nat) -> Option<ConfigError> {
    match v {
        None => Some(ConfigError::NotSet(var)),
        Some(t) => if parse_unsigned_spec(t@, max) is None { Some(ConfigError::NotNumber(var)) } else { None },
    }
}

/// The first problem among the streaming settings, in the order in which
/// they are read.
pub open spec fn websocket_problem(s: WebSocketSettings) -> Option<ConfigError> {
    if bool_problem(s.enable, ConfigVar::PolygonEnableWebsocket) is Some {
        bool_problem(s.enable, ConfigVar::PolygonEnableWebsocket)
    } else if number_problem(s.reconnect_interval, ConfigVar::PolygonWebsocketReconnectInterval, u64::MAX as nat) is Some {
        number_problem(s.reconnect_interval, ConfigVar::PolygonWebsocketReconnectInterval, u64::MAX as nat)
    } else if number_problem(s.heartbeat_interval, ConfigVar::PolygonWebsocketHeartbeatInterval, u64::MAX as nat) is Some {
        number_problem(s.heartbeat_interval, ConfigVar::PolygonWebsocketHeartbeatInterval, u64::MAX as nat)
    } else if number_problem(s.max_subscriptions, ConfigVar::PolygonWebsocketMaxSubscriptions, usize::MAX as nat) is Some {
        number_problem(s.max_subscriptions, ConfigVar::PolygonWebsocketMaxSubscriptions, usize::MAX as nat)
    } else if number_problem(s.buffer_size, ConfigVar::PolygonWebsocketBufferSize, usize::MAX as nat) is Some {
        number_problem(s.buffer_size, ConfigVar::PolygonWebsocketBufferSize, usize::MAX as nat)
    } else if s.default_subscriptions is None {
        Some(ConfigError::NotSet(ConfigVar::PolygonDefaultSubscriptions))
    } else {
        bool_problem(s.auto_subscribe_movers, ConfigVar::PolygonAutoSubscribeMovers)
    }
}

pub open spec fn bool_value(v: Option<String>) -> bool {
    match v {
        Some(t) => bool_of(t@) == Some(true),
        None => false,
    }
}

pub open spec fn number_value(v: Option<String>, max: nat) -> nat {
    match v {
        Some(t) => match parse_unsigned_spec(t@, max) {
            Some(n) => n,
            None => 0,
        },
        None => 0,
    }
}

fn required_bool(v: &Option<String>, var: ConfigVar) -> (r: Result<bool, ConfigError>)
    ensures
        bool_problem(*v, var) matches Some(e) ==> r == Err::<bool, ConfigError>(e),
        bool_problem(*v, var) is None ==> r == Ok::<bool, ConfigError>(bool_value(*v)),
{
    match v {
        None => Err(ConfigError::NotSet(var)),
        Some(t) => match parse_bool(t.as_str()) {
            Some(b) => Ok(b),
            None => Err(ConfigError::NotBool(var)),
        },
    }
}

fn required_number(v: &Option<String>, var: ConfigVar, max: u64) -> (r: Result<u64, ConfigError>)
    ensures
        number_problem(*v, var, max as nat) matches Some(e) ==> r == Err::<u64, ConfigError>(e),
        number_problem(*v, var, max as nat) is None ==> (r matches Ok(n) && n as nat == number_value(*v, max as nat)
            && n <= max),
{
    match v {
        None => Err(ConfigError::NotSet(var)),
        Some(t) => match parse_unsigned(t.as_str(), max) {
            Some(n) => Ok(n),
            None => Err(ConfigError::NotNumber(var)),
        },
    }
}

/// What `websocket_config_from` gives for these settings.
pub open spec fn websocket_config_meets(r: Result<Option<PolygonWebSocketConfig>, ConfigError>, has_api_key: bool, s: WebSocketSettings) -> bool {
    &&& !(has_api_key && s.enable is Some) ==> (r matches Ok(None))
    &&& has_api_key && s.enable is Some ==> match websocket_problem(s) {
            Some(e) => r == Err::<Option<PolygonWebSocketConfig>, ConfigError>(e),
            None => (r matches Ok(Some(c)) && {
                &&& c.enabled == bool_value(s.enable)
                &&& c.reconnect_interval_secs == number_value(s.reconnect_interval, u64::MAX as nat)
                &&& c.heartbeat_interval_secs == number_value(s.heartbeat_interval, u64::MAX as nat)
                &&& c.max_subscriptions == number_value(s.max_subscriptions, usize::MAX as nat)
                &&& c.buffer_size == number_value(s.buffer_size, usize::MAX as nat)
                &&& texts_of(c.default_subscriptions@) == list_of(opt_text(s.default_subscriptions)->Some_0)
                &&& c.auto_subscribe_movers == bool_value(s.auto_subscribe_movers)
            }),
        }
}

/// The streaming configuration: none unless an API key is configured and
/// `POLYGON_ENABLE_WEBSOCKET` is set; then every streaming setting is
/// required, and the first one missing or malformed is the error.
pub fn websocket_config_from(has_api_key: bool, s: &WebSocketSettings) -> (r: Result<Option<PolygonWebSocketConfig>, ConfigError>)
    ensures
        websocket_config_meets(r, has_api_key, *s),
{
    if !(has_api_key && s.enable.is_some()) {
        return Ok(None);
    }
    let enabled = match required_bool(&s.enable, ConfigVar::PolygonEnableWebsocket) {
        Ok(b) => b,
        Err(e) => return Err(e),
    };
    let reconnect_interval_secs = match required_number(
        &s.reconnect_interval,
        ConfigVar::PolygonWebsocketReconnectInterval,
        u64::MAX,
    ) {
        Ok(n) => n,
        Err(e) => return Err(e),
    };
    let heartbeat_interval_secs = match required_number(
        &s.heartbeat_interval,
        ConfigVar::PolygonWebsocketHeartbeatInterval,
        u64::MAX,
    ) {
        Ok(n) => n,
        Err(e) => return Err(e),
    };
    let max_subscriptions = match required_number(
        &s.max_subscriptions,
        ConfigVar::PolygonWebsocketMaxSubscriptions,
        usize::MAX as u64,
    ) {
        Ok(n) => n as usize,
        Err(e) => return Err(e),
    };
    let buffer_size = match required_number(
        &s.buffer_size,
        ConfigVar::PolygonWebsocketBufferSize,
        usize::MAX as u64,
    ) {
        Ok(n) => n as usize,
        Err(e) => return Err(e),
    };
    let default_subscriptions = match &s.default_subscriptions {
        Some(t) => parse_list(t.as_str()),
        None => return Err(ConfigError::NotSet(ConfigVar::PolygonDefaultSubscriptions)),
    };
    let auto_subscribe_movers = match required_bool(
        &s.auto_subscribe_movers,
        ConfigVar::PolygonAutoSubscribeMovers,
    ) {
        Ok(b) => b,
        Err(e) => return Err(e),
    };
    Ok(
        Some(
            PolygonWebSocketConfig {
                enabled,
                reconnect_interval_secs,
                heartbeat_interval_secs,
                max_subscriptions,
                buffer_size,
                default_subscriptions,
                auto_subscribe_movers,
            },
        ),
    )
}

/// What `lightspeed_config_from` gives for these settings.
pub open spec fn lightspeed_config_meets(
    r: Option<LightspeedConfig>,
    api_key: Option<String>,
    account_id: Option<String>,
    connection_url: Option<String>,
    client_id: Option<String>,
    sandbox: Option<String>,
) -> bool {
    &&& r is Some <==> (api_key is Some && account_id is Some)
    &&& r matches Some(c) ==> {
            &&& c.api_key@ == api_key->Some_0@
            &&& c.account_id@ == account_id->Some_0@
            &&& c.connection_url@ == match connection_url {
                Some(u) => u@,
                None => "wss://onboarding.connecttrade.com:28052"@,
            }
            &&& c.client_id@ == match client_id {
                Some(u) => u@,
                None => "LIGHTSPEED"@,
            }
            &&& c.sandbox == match sandbox {
                Some(t) => match bool_of(t@) {
                    Some(b) => b,
                    None => true,
                },
                None => true,
            }
        }
}

/// The LightSpeed configuration: present when both the API key and the
/// account are set; the connection URL, the client id and the sandbox flag
/// have defaults.
pub fn lightspeed_config_from(
    api_key: Option<String>,
    account_id: Option<String>,
    connection_url: Option<String>,
    client_id: Option<String>,
    sandbox: Option<String>,
) -> (r: Option<LightspeedConfig>)
    ensures
        lightspeed_config_meets(r, api_key, account_id, connection_url, client_id, sandbox),
{
    match (api_key, account_id) {
        (Some(key), Some(account)) => {
            let url = match connection_url {
                Some(u) => u,
                None => String::from_str("wss://onboarding.connecttrade.com:28052"),
            };
            let client = match client_id {
                Some(c) => c,
                None => String::from_str("LIGHTSPEED"),
            };
            let sandbox_flag = match &sandbox {
                Some(t) => parse_flag(Some(t.as_str()), true),
                None => true,
            };
            Some(
                LightspeedConfig {
                    api_key: key,
                    connection_url: url,
                    client_id: client,
                    account_id: account,
                    sandbox: sandbox_flag,
                },
            )
        },
        _ => None,
    }
}

/// A remark about a usable configuration.
#[derive(Debug, Clone, Copy, PartialEq, Eq, Structural)]
pub enum ConfigWarning {
    /// The market-data module is enabled without an API key.
    PolygonKeyMissing,
    /// The LightSpeed module is enabled without its configuration.
    LightspeedConfigMissing,
    /// The LightSpeed API key is empty.
    LightspeedKeyEmpty,
    /// The memory limit is above 4096 MB.
    LargeMemory,
    /// Neither a data source nor a broker is configured.
    NoDataSources,
    /// The rules engine is enabled without an evaluation interval.
    RulesIntervalUnset,
    /// The rules engine is enabled without a decision time limit.
    RulesDecisionTimeUnset,
    /// The rules engine is enabled without default watchlist symbols.
    RulesWatchlistEmpty,
}

/// What the configuration check reads.
pub struct ConfigFacts {
    pub enable_polygon: bool,
    pub has_polygon_key: bool,
    pub enable_lightspeed: bool,
    /// The LightSpeed API key's length, when LightSpeed is configured.
    pub lightspeed_key_len: Option<usize>,
    pub max_memory_mb: u64,
    pub rules_enabled: bool,
    pub rules_interval_set: bool,
    pub rules_decision_time_set: bool,
    pub rules_watchlist_empty: bool,
}

pub open spec fn warn_if(cond: bool, w: ConfigWarning) -> Seq<ConfigWarning> {
    if cond { seq![w] } else { seq![] }
}

/// The remarks about a configuration, in the order in which they are made.
pub open spec fn warnings_of(f: ConfigFacts) -> Seq<ConfigWarning> {
    let polygon_available = f.enable_polygon && f.has_polygon_key;
    let lightspeed_available = f.enable_lightspeed && f.lightspeed_key_len is Some;
    warn_if(f.enable_polygon && !f.has_polygon_key, ConfigWarning::PolygonKeyMissing)
        + warn_if(f.enable_lightspeed && f.lightspeed_key_len is None, ConfigWarning::LightspeedConfigMissing)
        + warn_if(f.lightspeed_key_len == Some(0usize), ConfigWarning::LightspeedKeyEmpty)
        + warn_if(f.max_memory_mb > 4096, ConfigWarning::LargeMemory)
        + warn_if(!polygon_available && !lightspeed_available, ConfigWarning::NoDataSources)
        + warn_if(f.rules_enabled && !f.rules_interval_set, ConfigWarning::RulesIntervalUnset)
        + warn_if(f.rules_enabled && !f.rules_decision_time_set, ConfigWarning::RulesDecisionTimeUnset)
        + warn_if(f.rules_enabled && f.rules_watchlist_empty, ConfigWarning::RulesWatchlistEmpty)
}

fn push_if(w: &mut Vec<ConfigWarning>, cond: bool, item: ConfigWarning)
    ensures
        final(w)@ == old(w)@ + warn_if(cond, item),
{
    if cond {
        w.push(item);
        assert(final(w)@ =~= old(w)@ + warn_if(cond, item));
    } else {
        assert(final(w)@ =~= old(w)@ + warn_if(cond, item));
    }
}

/// Checks a configuration: it is refused when the memory limit is zero;
/// otherwise its remarks are returned.
pub fn validate_config(f: &ConfigFacts) -> (r: Result<Vec<ConfigWarning>, ConfigError>)
    ensures
        f.max_memory_mb == 0 ==> r == Err::<Vec<ConfigWarning>, ConfigError>(ConfigError::MaxMemoryZero),
        f.max_memory_mb != 0 ==> (r matches Ok(w) && w@ == warnings_of(*f)),
{
    if f.max_memory_mb == 0 {
        return Err(ConfigError::MaxMemoryZero);
    }
    let polygon_available = f.enable_polygon && f.has_polygon_key;
    let lightspeed_available = f.enable_lightspeed && f.lightspeed_key_len.is_some();
    let mut w: Vec<ConfigWarning> = Vec::new();
    push_if(&mut w, f.enable_polygon && !f.has_polygon_key, ConfigWarning::PolygonKeyMissing);
    push_if(&mut w, f.enable_lightspeed && f.lightspeed_key_len.is_none(), ConfigWarning::LightspeedConfigMissing);
    push_if(&mut w, f.lightspeed_key_len == Some(0usize), ConfigWarning::LightspeedKeyEmpty);
    push_if(&mut w, f.max_memory_mb > 4096, ConfigWarning::LargeMemory);
    push_if(&mut w, !polygon_available && !lightspeed_available, ConfigWarning::NoDataSources);
    push_if(&mut w, f.rules_enabled && !f.rules_interval_set, ConfigWarning::RulesIntervalUnset);
    push_if(&mut w, f.rules_enabled && !f.rules_decision_time_set, ConfigWarning::RulesDecisionTimeUnset);
    push_if(&mut w, f.rules_enabled && f.rules_watchlist_empty, ConfigWarning::RulesWatchlistEmpty);
    assert(w@ =~= warnings_of(*f));
    Ok(w)
}

/// The memory limit in bytes.
pub fn max_memory_bytes(max_memory_mb: u64) -> (r: u64)
    requires
        max_memory_mb * 1024 * 1024 <= u64::MAX,
    ensures
        r == max_memory_mb * 1024 * 1024,
{
    max_memory_mb * 1024 * 1024
}

/// Whether the rules engine can start: it is enabled and both its evaluation
/// interval and its decision time limit are set.
pub fn rules_engine_ready(enabled: bool, evaluation_interval_ms: Option<u64>, max_decision_time_ms: Option<u64>) -> (r: bool)
    ensures
        r == (enabled && evaluation_interval_ms is Some && max_decision_time_ms is Some),
{
    enabled && evaluation_interval_ms.is_some() && max_decision_time_ms.is_some()
}

/// The rules engine settings as read from the environment.
pub struct RulesEngineSettings {
    pub enabled: Option<String>,
    pub evaluation_interval_ms: Option<String>,
    pub max_decision_time_ms: Option<String>,
    pub warning_threshold_ms: Option<String>,
    pub track_performance: Option<String>,
    pub log_all_decisions: Option<String>,
    pub require_user_confirmation: Option<String>,
    pub decision_history_days: Option<String>,
    pub fallback_price_source: Option<String>,
    pub default_watchlist_symbols: Option<String>,
    pub allow_new_positions: Option<String>,
    pub max_concurrent_rules: Option<String>,
}

/// The rules engine configuration.
#[derive(Debug, Clone)]
pub struct RulesEngineConfig {
    pub enabled: bool,
    pub evaluation_interval_ms: Option<u64>,
    pub max_decision_time_ms: Option<u64>,
    pub warning_threshold_ms: Option<u64>,
    pub track_performance: bool,
    pub log_all_decisions: bool,
    pub require_user_confirmation: bool,
    pub decision_history_days: Option<u32>,
    pub price_fallback: FallbackChoice,
    pub default_watchlist_symbols: Vec<String>,
    pub allow_new_positions: Option<bool>,
    pub max_concurrent_rules: Option<u32>,
}

/// A flag setting with its default.
pub open spec fn flag_of(v: Option<String>, default: bool) -> bool {
    match v {
        Some(t) => match bool_of(t@) {
            Some(b) => b,
            None => default,
        },
        None => default,
    }
}

/// An optional number setting read against the largest value of its type.
pub open spec fn optional_number_of(v: Option<String>, max: nat) -> Option<int> {
    match v {
        Some(t) => match parse_unsigned_spec(t@, max) {
            Some(n) => Some(n as int),
            None => None,
        },
        None => None,
    }
}

pub open spec fn opt_u64_int(o: Option<u64>) -> Option<int> {
    match o {
        Some(n) => Some(n as int),
        None => None,
    }
}

pub open spec fn opt_u32_int(o: Option<u32>) -> Option<int> {
    match o {
        Some(n) => Some(n as int),
        None => None,
    }
}

fn opt_str(v: &Option<String>) -> (r: Option<&str>)
    ensures
        match *v {
            Some(s) => r matches Some(t) && t@ == s@,
            None => r is None,
        },
{
    match v {
        Some(s) => Some(s.as_str()),
        None => None,
    }
}

/// What `rules_engine_config_from` gives for these settings.
pub open spec fn rules_engine_config_meets(r: RulesEngineConfig, s: RulesEngineSettings) -> bool {
    &&& r.enabled == flag_of(s.enabled, false)
    &&& opt_u64_int(r.evaluation_interval_ms) == optional_number_of(s.evaluation_interval_ms, u64::MAX as nat)
    &&& opt_u64_int(r.max_decision_time_ms) == optional_number_of(s.max_decision_time_ms, u64::MAX as nat)
    &&& opt_u64_int(r.warning_threshold_ms) == optional_number_of(s.warning_threshold_ms, u64::MAX as nat)
    &&& r.track_performance == flag_of(s.track_performance, true)
    &&& r.log_all_decisions == flag_of(s.log_all_decisions, false)
    &&& r.require_user_confirmation == flag_of(s.require_user_confirmation, true)
    &&& opt_u32_int(r.decision_history_days) == optional_number_of(s.decision_history_days, u32::MAX as nat)
    &&& r.price_fallback@ == fallback_choice_of(opt_text(s.fallback_price_source))
    &&& texts_of(r.default_watchlist_symbols@) == list_of(
            match s.default_watchlist_symbols {
                Some(t) => t@,
                None => Seq::<char>::empty(),
            },
        )
    &&& r.allow_new_positions == match s.allow_new_positions {
            Some(t) => bool_of(t@),
            None => None,
        }
    &&& opt_u32_int(r.max_concurrent_rules) == optional_number_of(s.max_concurrent_rules, u32::MAX as nat)
}

/// The rules engine configuration: off unless enabled; performance tracked
/// and user confirmation required unless turned off; decisions not all
/// logged unless turned on; the numbers only where they read as numbers; the
/// fallback price source as `fallback_choice` reads it; the default watchlist
/// as a comma-separated list.
pub fn rules_engine_config_from(s: &RulesEngineSettings) -> (r: RulesEngineConfig)
    ensures
        rules_engine_config_meets(r, *s),
{
    let watchlist = match &s.default_watchlist_symbols {
        Some(t) => parse_list(t.as_str()),
        None => parse_list(""),
    };
    proof {
        reveal_strlit("");
    }
    RulesEngineConfig {
        enabled: parse_flag(opt_str(&s.enabled), false),
        evaluation_interval_ms: parse_optional_u64(opt_str(&s.evaluation_interval_ms)),
        max_decision_time_ms: parse_optional_u64(opt_str(&s.max_decision_time_ms)),
        warning_threshold_ms: parse_optional_u64(opt_str(&s.warning_threshold_ms)),
        track_performance: parse_flag(opt_str(&s.track_performance), true),
        log_all_decisions: parse_flag(opt_str(&s.log_all_decisions), false),
        require_user_confirmation: parse_flag(opt_str(&s.require_user_confirmation), true),
        decision_history_days: parse_optional_u32(opt_str(&s.decision_history_days)),
        price_fallback: fallback_choice(opt_str(&s.fallback_price_source)),
        default_watchlist_symbols: watchlist,
        allow_new_positions: parse_optional_bool(opt_str(&s.allow_new_positions)),
        max_concurrent_rules: parse_optional_u32(opt_str(&s.max_concurrent_rules)),
    }
}

/// A text setting with its default.
pub fn setting_or(value: Option<String>, default: &str) -> (r: String)
    ensures
        r@ == match value {
            Some(v) => v@,
            None => default@,
        },
{
    match value {
        Some(v) => v,
        None => String::from_str(default),
    }
}

// ----- The whole configuration -----

/// Every setting the configuration reads, as found in the environment.
pub struct ConfigSettings {
    pub database_url: Option<String>,
    pub polygon_api_key: Option<String>,
    pub polygon_use_delayed_data: Option<String>,
    pub websocket: WebSocketSettings,
    pub lightspeed_api_key: Option<String>,
    pub lightspeed_account_id: Option<String>,
    pub lightspeed_connection_url: Option<String>,
    pub lightspeed_client_id: Option<String>,
    pub lightspeed_sandbox: Option<String>,
    pub enable_polygon: Option<String>,
    pub enable_lightspeed: Option<String>,
    pub paper_enable_commission: Option<String>,
    pub paper_session_id: Option<String>,
    pub rules: RulesEngineSettings,
    pub trading_mode: Option<String>,
    pub max_memory_mb: Option<String>,
    pub bind_address: Option<String>,
    pub metrics_address: Option<String>,
}

/// The configuration, but for the paper trading amounts, which are
/// floating point.
#[derive(Debug, Clone)]
pub struct SystemConfig {
    pub database_url: String,
    pub polygon_api_key: Option<String>,
    pub polygon_use_delayed_data: bool,
    pub polygon_websocket_config: Option<PolygonWebSocketConfig>,
    pub lightspeed_config: Option<LightspeedConfig>,
    pub enable_polygon: bool,
    pub enable_lightspeed: bool,
    pub paper_enable_commission: bool,
    pub paper_session_id: String,
    pub rules_engine_config: RulesEngineConfig,
    pub trading_mode: TradingMode,
    pub max_memory_mb: u64,
    pub bind_address: String,
    pub metrics_address: String,
}

/// A text setting, or its default.
pub open spec fn text_or(v: Option<String>, default: Seq<char>) -> Seq<char> {
    match v {
        Some(t) => t@,
        None => default,
    }
}

/// The memory limit a `MAX_MEMORY_MB` setting gives ("1024" when unset), if
/// it reads as a number.
pub open spec fn memory_setting_of(v: Option<String>) -> Option<nat> {
    parse_unsigned_spec(text_or(v, "1024"@), u64::MAX as nat)
}

/// Whether the streaming settings are read and found wanting.
pub open spec fn websocket_fails(s: ConfigSettings) -> bool {
    s.polygon_api_key is Some && s.websocket.enable is Some && websocket_problem(s.websocket) is Some
}

/// Reads the whole configuration, in the order of its fields: a problem
/// with the streaming settings comes first, then a memory limit that is not
/// a number. Otherwise every setting has its value or its default: the
/// database `sqlite:./data/trading.db`, delayed data, Polygon, LightSpeed and
/// commissions on, the session `default-session`, paper trading, 1024 MB,
/// and the addresses `127.0.0.1:8080` and `127.0.0.1:9090`.
pub fn config_from(s: ConfigSettings) -> (r: Result<SystemConfig, ConfigError>)
    ensures
        websocket_fails(s) ==> r == Err::<SystemConfig, ConfigError>(websocket_problem(s.websocket)->Some_0),
        !websocket_fails(s) && memory_setting_of(s.max_memory_mb) is None
            ==> r == Err::<SystemConfig, ConfigError>(ConfigError::NotNumber(ConfigVar::MaxMemoryMb)),
        !websocket_fails(s) && memory_setting_of(s.max_memory_mb) is Some ==> (r matches Ok(c) && {
            &&& c.database_url@ == text_or(s.database_url, "sqlite:./data/trading.db"@)
            &&& c.polygon_api_key == s.polygon_api_key
            &&& c.polygon_use_delayed_data == flag_of(s.polygon_use_delayed_data, true)
            &&& websocket_config_meets(
                Ok::<Option<PolygonWebSocketConfig>, ConfigError>(c.polygon_websocket_config),
                s.polygon_api_key is Some,
                s.websocket,
            )
            &&& lightspeed_config_meets(
                c.lightspeed_config,
                s.lightspeed_api_key,
                s.lightspeed_account_id,
                s.lightspeed_connection_url,
                s.lightspeed_client_id,
                s.lightspeed_sandbox,
            )
            &&& c.enable_polygon == flag_of(s.enable_polygon, true)
            &&& c.enable_lightspeed == flag_of(s.enable_lightspeed, true)
            &&& c.paper_enable_commission == flag_of(s.paper_enable_commission, true)
            &&& c.paper_session_id@ == text_or(s.paper_session_id, "default-session"@)
            &&& rules_engine_config_meets(c.rules_engine_config, s.rules)
            &&& c.trading_mode == trading_mode_of(opt_text(s.trading_mode))
            &&& c.max_memory_mb == memory_setting_of(s.max_memory_mb)->Some_0
            &&& c.bind_address@ == text_or(s.bind_address, "127.0.0.1:8080"@)
            &&& c.metrics_address@ == text_or(s.metrics_address, "127.0.0.1:9090"@)
        }),
{
    let has_key = s.polygon_api_key.is_some();
    let polygon_websocket_config = match websocket_config_from(has_key, &s.websocket) {
        Ok(c) => c,
        Err(e) => return Err(e),
    };
    let max_memory_mb = match max_memory_from(opt_str(&s.max_memory_mb)) {
        Ok(m) => m,
        Err(e) => return Err(e),
    };
    let trading_mode = TradingMode::from_setting(opt_str(&s.trading_mode));
    let use_delayed = parse_flag(opt_str(&s.polygon_use_delayed_data), true);
    let enable_polygon = parse_flag(opt_str(&s.enable_polygon), true);
    let enable_lightspeed = parse_flag(opt_str(&s.enable_lightspeed), true);
    let enable_commission = parse_flag(opt_str(&s.paper_enable_commission), true);
    let rules_engine_config = rules_engine_config_from(&s.rules);
    let ConfigSettings {
        database_url,
        polygon_api_key,
        lightspeed_api_key,
        lightspeed_account_id,
        lightspeed_connection_url,
        lightspeed_client_id,
        lightspeed_sandbox,
        paper_session_id,
        bind_address,
        metrics_address,
        ..
    } = s;
    let lightspeed_config = lightspeed_config_from(
        lightspeed_api_key,
        lightspeed_account_id,
        lightspeed_connection_url,
        lightspeed_client_id,
        lightspeed_sandbox,
    );
    Ok(SystemConfig {
        database_url: setting_or(database_url, "sqlite:./data/trading.db"),
        polygon_api_key,
        polygon_use_delayed_data: use_delayed,
        polygon_websocket_config,
        lightspeed_config,
        enable_polygon,
        enable_lightspeed,
        paper_enable_commission: enable_commission,
        paper_session_id: setting_or(paper_session_id, "default-session"),
        rules_engine_config,
        trading_mode,
        max_memory_mb,
        bind_address: setting_or(bind_address, "127.0.0.1:8080"),
        metrics_address: setting_or(metrics_address, "127.0.0.1:9090"),
    })
}

} // verus!
