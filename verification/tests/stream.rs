use trading_system::config::PolygonWebSocketConfig;
use trading_system::stream::{StreamSetup, StreamSetupError};
use trading_system::json::{json_object_text, json_quote};
use trading_system::stream::{
    action_message_text, auth_message, minute_channel_list, opening_messages, status_for,
    stream_step, subscription_message, websocket_url, ConnectionPhase, ConnectionStatus, MessageBuffer,
    StreamEvent, StreamStep, SubscriptionAction, SubscriptionSet, WebSocketCommand,
};

#[test]
fn feed_addresses() {
    assert_eq!(websocket_url(true), "wss://delayed.polygon.io/stocks");
    assert_eq!(websocket_url(false), "wss://socket.polygon.io/stocks");
}

#[test]
fn json_strings_are_escaped_like_serde_json() {
    for s in ["plain", "quote\"here", "back\\slash", "tab\there", "line\nbreak", "\u{1}\u{1f}", "é/ü", ""] {
        assert_eq!(json_quote(s), serde_json::to_string(s).unwrap());
    }
    assert_eq!(json_quote("a\"b"), "\"a\\\"b\"");
}

#[test]
fn json_objects_of_strings() {
    let pairs = vec![("a".to_string(), "1".to_string()), ("b\"".to_string(), "x\ny".to_string())];
    assert_eq!(json_object_text(&pairs), "{\"a\":\"1\",\"b\\\"\":\"x\\ny\"}");
    assert_eq!(json_object_text(&Vec::new()), "{}");
}

#[test]
fn auth_and_subscription_messages() {
    assert_eq!(auth_message("KEY123"), "{\"action\":\"auth\",\"params\":\"KEY123\"}");
    assert_eq!(auth_message("k\"q"), "{\"action\":\"auth\",\"params\":\"k\\\"q\"}");
    let syms = vec!["AAPL".to_string(), "MSFT".to_string()];
    assert_eq!(minute_channel_list(&syms), "AM.AAPL,AM.MSFT");
    assert_eq!(
        subscription_message(SubscriptionAction::Subscribe, &syms),
        "{\"action\":\"subscribe\",\"params\":\"AM.AAPL,AM.MSFT\"}"
    );
    assert_eq!(
        subscription_message(SubscriptionAction::Unsubscribe, &vec!["TSLA".to_string()]),
        "{\"action\":\"unsubscribe\",\"params\":\"AM.TSLA\"}"
    );
    assert_eq!(action_message_text("x", ""), "{\"action\":\"x\",\"params\":\"\"}");
    assert_eq!(minute_channel_list(&Vec::new()), "");
}

#[test]
fn opening_messages_send_auth_then_defaults() {
    let none = opening_messages("K", &Vec::new());
    assert_eq!(none.len(), 1);
    let some = opening_messages("K", &vec!["SPY".to_string()]);
    assert_eq!(some.len(), 2);
    assert_eq!(some[0], "{\"action\":\"auth\",\"params\":\"K\"}");
    assert_eq!(some[1], "{\"action\":\"subscribe\",\"params\":\"AM.SPY\"}");
}

#[test]
fn subscriptions_follow_sent_messages() {
    let mut set = SubscriptionSet::new();
    set.apply(SubscriptionAction::Subscribe, &vec!["AAPL".to_string(), "MSFT".to_string(), "AAPL".to_string()]);
    assert_eq!(set.len(), 2);
    assert!(set.contains("AAPL"));
    set.apply(SubscriptionAction::Subscribe, &vec!["MSFT".to_string()]);
    assert_eq!(set.len(), 2);
    set.apply(SubscriptionAction::Unsubscribe, &vec!["AAPL".to_string(), "NVDA".to_string()]);
    assert!(!set.contains("AAPL"));
    assert_eq!(set.symbols(), vec!["MSFT".to_string()]);
}

#[test]
fn buffer_keeps_the_newest_messages() {
    let mut b: MessageBuffer<u32> = MessageBuffer::new(3);
    for i in 1..=5 {
        b.push(i);
    }
    assert_eq!(b.len(), 3);
    let recent: Vec<u32> = b.recent(2).into_iter().copied().collect();
    assert_eq!(recent, vec![5, 4]);
    let all: Vec<u32> = b.recent(10).into_iter().copied().collect();
    assert_eq!(all, vec![5, 4, 3]);
    let mut none: MessageBuffer<u32> = MessageBuffer::new(0);
    none.push(1);
    assert_eq!(none.len(), 0);
}

#[test]
fn connection_events() {
    assert!(matches!(stream_step(StreamEvent::TextFrame), StreamStep::BufferMessage));
    assert!(matches!(stream_step(StreamEvent::OtherFrame), StreamStep::Continue));
    assert!(matches!(stream_step(StreamEvent::CloseFrame), StreamStep::EndConnection));
    assert!(matches!(stream_step(StreamEvent::ReadError), StreamStep::EndConnection));
    assert!(matches!(stream_step(StreamEvent::StreamEnded), StreamStep::EndConnection));
    assert!(matches!(stream_step(StreamEvent::CommandChannelClosed), StreamStep::EndConnection));
    assert!(matches!(stream_step(StreamEvent::Command(WebSocketCommand::Reconnect)), StreamStep::EndConnection));
    assert!(matches!(stream_step(StreamEvent::Command(WebSocketCommand::Shutdown)), StreamStep::Shutdown));
    match stream_step(StreamEvent::Command(WebSocketCommand::Subscribe(vec!["QQQ".to_string()]))) {
        StreamStep::Send { text, action, symbols } => {
            assert_eq!(text, "{\"action\":\"subscribe\",\"params\":\"AM.QQQ\"}");
            assert_eq!(action, SubscriptionAction::Subscribe);
            assert_eq!(symbols, vec!["QQQ".to_string()]);
        }
        _ => panic!("expected a send"),
    }
    match stream_step(StreamEvent::Command(WebSocketCommand::Unsubscribe(vec!["QQQ".to_string()]))) {
        StreamStep::Send { action, .. } => assert_eq!(action, SubscriptionAction::Unsubscribe),
        _ => panic!("expected a send"),
    }
}

#[test]
fn connection_status_by_phase() {
    assert_eq!(status_for(ConnectionPhase::Attempting), ConnectionStatus::Connecting);
    assert_eq!(status_for(ConnectionPhase::Opened), ConnectionStatus::Connected);
    assert_eq!(status_for(ConnectionPhase::AuthSent), ConnectionStatus::Authenticated);
    assert_eq!(
        status_for(ConnectionPhase::Failed("refused".to_string())),
        ConnectionStatus::Error("refused".to_string())
    );
}

#[test]
fn stream_set_up_from_configuration() {
    let r = StreamSetup::<String>::new(&None, &Some("K".to_string()), true);
    assert_eq!(r.err(), Some(StreamSetupError::ConfigurationMissing));
    assert_eq!(StreamSetupError::ConfigurationMissing.message(), "WebSocket configuration missing");
    let cfg = PolygonWebSocketConfig {
        enabled: true,
        reconnect_interval_secs: 5,
        heartbeat_interval_secs: 30,
        max_subscriptions: 100,
        buffer_size: 2,
        default_subscriptions: Vec::new(),
        auto_subscribe_movers: false,
    };
    let mut s = StreamSetup::<String>::new(&Some(cfg.clone()), &Some("K".to_string()), true).ok().unwrap();
    assert_eq!(s.url, "wss://delayed.polygon.io/stocks");
    assert_eq!(s.api_key, "K");
    assert_eq!(s.status, ConnectionStatus::Disconnected);
    assert_eq!(s.subscriptions.len(), 0);
    s.buffer.push("a".to_string());
    s.buffer.push("b".to_string());
    s.buffer.push("c".to_string());
    assert_eq!(s.buffer.len(), 2);
    let live = StreamSetup::<String>::new(&Some(cfg), &Some("K".to_string()), false).ok().unwrap();
    assert_eq!(live.url, "wss://socket.polygon.io/stocks");
}
