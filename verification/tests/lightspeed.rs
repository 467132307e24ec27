use trading_system::lightspeed::{
    apply_fill, cancel_message, create_stock_order, heartbeat_step, HeartbeatStep, LoginMessage, execution_action, logon_outcome, message_kind, new_client_order_id,
    order_update_action, prepare_order, reject_reason, reported_position, sending_session, ExecutionAction,
    ExecutionReport, Holding, LogonOutcome, MessageKind, OrderUpdateAction, ReportedPosition, SendError,
};
use trading_system::lightspeed::{
    order_sent, record_fill, record_position_report, session_step, settle_after_report, settle_after_update, BrokerSession,
    LightspeedOrder, SendOutcome, SessionEvent, SessionMessage,
};
use trading_system::store::KeyedStore;
use trading_system::types::{PositionSide, PositionStatus};

#[test]
fn stock_order_fields() {
    let o = create_stock_order("CLIENT", "ACC1", "AAPL", "BUY", "LIMIT", 150, Some("187.25".to_string()));
    assert_eq!(o.msg_type, "OrderSingle");
    assert_eq!(o.client_id, "CLIENT");
    assert_eq!(o.account, "ACC1");
    assert_eq!(o.order_qty, "150");
    assert_eq!(o.price.as_deref(), Some("187.25"));
    assert_eq!(o.security_exchange.as_deref(), Some("NASDAQ"));
    assert_eq!(o.exchange_destination.as_deref(), Some("SMART"));
    assert!(o.session_id.is_none() && o.client_order_id.is_none() && o.sending_time.is_none());
}

#[test]
fn client_order_ids_are_ls_and_eighteen_hex_digits() {
    let id = new_client_order_id();
    assert_eq!(id.len(), 20);
    assert!(id.starts_with("LS"));
    assert!(id[2..].chars().all(|c| c.is_ascii_hexdigit() && !c.is_ascii_lowercase()));
    assert_ne!(new_client_order_id(), id);
}

#[test]
fn orders_need_a_connected_session() {
    assert_eq!(sending_session(false, &Some("S".to_string())), Err(SendError::NotConnected));
    assert_eq!(sending_session(true, &None), Err(SendError::NoSession));
    assert_eq!(sending_session(true, &Some("S1".to_string())), Ok("S1".to_string()));
    assert_eq!(SendError::NotConnected.message(), "Not connected to LightSpeed");
    let o = create_stock_order("C", "A", "MSFT", "SELL", "MARKET", 5, None);
    let (prepared, id) = prepare_order(o, true, &Some("S1".to_string())).unwrap();
    assert_eq!(prepared.session_id.as_deref(), Some("S1"));
    assert_eq!(prepared.client_order_id.as_deref(), Some(id.as_str()));
    assert!(prepared.sending_time.is_some());
    let o = create_stock_order("C", "A", "MSFT", "SELL", "MARKET", 5, None);
    assert!(matches!(prepare_order(o, false, &None), Err(SendError::NotConnected)));
}

#[test]
fn message_kinds() {
    assert_eq!(message_kind("Logon"), MessageKind::Logon);
    assert_eq!(message_kind("OrderReject"), MessageKind::Reject);
    assert_eq!(message_kind("OrderCancelReject"), MessageKind::Reject);
    assert_eq!(message_kind("Heartbeat"), MessageKind::Heartbeat);
    assert_eq!(message_kind("Something"), MessageKind::Other);
}

#[test]
fn logon_replies() {
    assert!(matches!(logon_outcome(None, None, None), LogonOutcome::Unanswered));
    match logon_outcome(Some(351), Some("SESS".to_string()), None) {
        LogonOutcome::LoggedIn(s) => assert_eq!(s, "SESS"),
        _ => panic!("expected a login"),
    }
    assert!(matches!(logon_outcome(Some(0), None, None), LogonOutcome::NoSession));
    match logon_outcome(Some(-7), None, None) {
        LogonOutcome::Refused(m) => assert_eq!(m, "Login failed with code: -7"),
        _ => panic!("expected a refusal"),
    }
    match logon_outcome(Some(5), None, Some("bad key".to_string())) {
        LogonOutcome::Refused(m) => assert_eq!(m, "bad key"),
        _ => panic!("expected a refusal"),
    }
}

fn report(exec_type: &str) -> ExecutionReport {
    ExecutionReport {
        client_order_id: Some("LS1".to_string()),
        exec_type: Some(exec_type.to_string()),
        order_id: Some("O9".to_string()),
        symbol: Some("AAPL".to_string()),
        side: Some("BUY".to_string()),
        last_qty: Some("10".to_string()),
        last_px: Some("1.5".to_string()),
        error_text: None,
    }
}

#[test]
fn execution_reports() {
    assert!(matches!(execution_action(&report("NEW")), ExecutionAction::Acknowledged { .. }));
    assert!(matches!(execution_action(&report("2")), ExecutionAction::Filled { .. }));
    assert!(matches!(execution_action(&report("CANCELED")), ExecutionAction::Canceled { .. }));
    match execution_action(&report("8")) {
        ExecutionAction::Rejected { reason, .. } => assert_eq!(reason, "Order rejected"),
        _ => panic!("expected a rejection"),
    }
    assert!(matches!(execution_action(&report("X")), ExecutionAction::Ignore));
    let mut r = report("1");
    r.client_order_id = None;
    assert!(matches!(execution_action(&r), ExecutionAction::Ignore));
    assert_eq!(reject_reason(&Some("halted".to_string())), "halted");
}

#[test]
fn order_updates() {
    let id = Some("LS1".to_string());
    assert!(matches!(
        order_update_action(&id, &Some("NEW".to_string()), &Some("O1".to_string()), &None),
        OrderUpdateAction::Acknowledged { .. }
    ));
    assert!(matches!(
        order_update_action(&id, &Some("REJECTED".to_string()), &None, &None),
        OrderUpdateAction::Rejected { .. }
    ));
    assert!(matches!(
        order_update_action(&id, &Some("FILLED".to_string()), &None, &None),
        OrderUpdateAction::Ignore
    ));
}

#[test]
fn fills_move_holdings() {
    let (h, closed) = apply_fill(None, "BUY", 10);
    assert_eq!(h, Holding { side: PositionSide::Long, quantity: 10, status: PositionStatus::Open });
    assert!(!closed);
    let (h, closed) = apply_fill(Some(h), "SELL", 10);
    assert_eq!(h.quantity, 0);
    assert_eq!(h.status, PositionStatus::Closed);
    assert!(closed);
    let (h, _) = apply_fill(Some(Holding { side: PositionSide::Long, quantity: 3, status: PositionStatus::Open }), "SELL_SHORT", 5);
    assert_eq!(h.side, PositionSide::Short);
    assert_eq!(h.quantity, 2);
}

#[test]
fn reported_positions() {
    assert_eq!(reported_position(0), ReportedPosition::Flat);
    assert_eq!(reported_position(7), ReportedPosition::Held { side: PositionSide::Long, quantity: 7 });
    assert_eq!(reported_position(-4), ReportedPosition::Held { side: PositionSide::Short, quantity: 4 });
}

#[test]
fn messages_as_sent() {
    let o = create_stock_order("CL", "AC", "AAPL", "BUY", "MARKET", 3, None);
    assert_eq!(
        o.to_json(),
        "{\"MsgType\":\"OrderSingle\",\"ClientID\":\"CL\",\"Account\":\"AC\",\"Symbol\":\"AAPL\",\"Side\":\"BUY\",\"OrderType\":\"MARKET\",\"OrderQty\":\"3\",\"SecurityExchange\":\"NASDAQ\",\"ExchangeDestination\":\"SMART\"}"
    );
    let login = LoginMessage::logon("K1");
    assert_eq!(login.to_json(), "{\"MsgType\":\"Logon\",\"ApiKey\":\"K1\"}");
    match heartbeat_step(true, &Some("S9".to_string())) {
        HeartbeatStep::Send(h) => {
            assert_eq!(h.session_id, "S9");
            let text = h.to_json();
            assert!(text.starts_with("{\"MsgType\":\"Heartbeat\",\"SessionId\":\"S9\",\"SendingTime\":\""));
            assert_eq!(h.sending_time.len(), 21);
        }
        _ => panic!("expected a heartbeat"),
    }
    assert!(matches!(heartbeat_step(true, &None), HeartbeatStep::Wait));
    assert!(matches!(heartbeat_step(false, &Some("S".to_string())), HeartbeatStep::Stop));
    let c = cancel_message("CL", "LS123", true, &Some("S9".to_string())).unwrap();
    assert!(c.starts_with("{\"ClientID\":\"CL\",\"MsgType\":\"OrderCancel\",\"OrigClientOrderID\":\"LS123\",\"SendingTime\":\""));
    assert!(c.ends_with("\",\"SessionId\":\"S9\"}"));
    assert_eq!(cancel_message("CL", "LS1", false, &None), Err(SendError::NotConnected));
    assert_eq!(cancel_message("CL", "LS1", true, &None), Err(SendError::NoSession));
}

#[test]
fn broker_positions_by_symbol() {
    let mut book: KeyedStore<Holding> = KeyedStore::new();
    assert!(!record_fill(&mut book, "GOOGL".to_string(), "BUY", 10));
    assert_eq!(book.get("GOOGL").unwrap().quantity, 10);
    assert!(record_fill(&mut book, "GOOGL".to_string(), "SELL", 10));
    assert_eq!(book.get("GOOGL").unwrap().status, PositionStatus::Closed);

    // A position update re-opens and sizes the position; a zero count closes it.
    record_position_report(&mut book, "GOOGL".to_string(), -7, true);
    assert_eq!(
        *book.get("GOOGL").unwrap(),
        Holding { side: PositionSide::Short, quantity: 7, status: PositionStatus::Open }
    );
    record_position_report(&mut book, "GOOGL".to_string(), 0, true);
    assert_eq!(*book.get("GOOGL").unwrap(), Holding { side: PositionSide::Short, quantity: 0, status: PositionStatus::Closed });

    // A status report sizes a position but keeps its state, and ignores zero counts.
    record_position_report(&mut book, "GOOGL".to_string(), 5, false);
    assert_eq!(*book.get("GOOGL").unwrap(), Holding { side: PositionSide::Long, quantity: 5, status: PositionStatus::Closed });
    record_position_report(&mut book, "F".to_string(), 0, false);
    assert!(book.get("F").is_none());
    record_position_report(&mut book, "F".to_string(), 0, true);
    assert!(book.get("F").is_none());
    record_position_report(&mut book, "GE".to_string(), 3, false);
    assert_eq!(book.get("GE").unwrap().status, PositionStatus::Open);
}

#[test]
fn client_order_id_is_twenty_upper_hex_characters() {
    for _ in 0..20 {
        let id = new_client_order_id();
        assert_eq!(id.len(), 20);
        assert!(id.starts_with("LS"));
        assert!(id[2..].chars().all(|c| c.is_ascii_digit() || ('A'..='F').contains(&c)));
    }
}

fn msg(kind: MessageKind, code: Option<i32>, session: Option<&str>, text: Option<&str>, id: Option<&str>) -> SessionMessage {
    SessionMessage {
        kind,
        error_code: code,
        session_id: session.map(|s| s.to_string()),
        error_text: text.map(|s| s.to_string()),
        client_order_id: id.map(|s| s.to_string()),
    }
}

#[test]
fn session_follows_the_broker_messages() {
    let mut s = BrokerSession::new();
    assert_eq!(session_step(&mut s, msg(MessageKind::Logon, None, Some("S1"), None, None)), None);
    assert_eq!(s, BrokerSession::new());
    assert_eq!(
        session_step(&mut s, msg(MessageKind::Logon, Some(7), None, None, None)),
        Some(SessionEvent::Error { message: "Login failed with code: 7".to_string() })
    );
    assert!(!s.connected);
    assert_eq!(session_step(&mut s, msg(MessageKind::Logon, Some(351), Some("S1"), None, None)), Some(SessionEvent::Connected));
    assert!(s.connected);
    assert_eq!(s.session_id.as_deref(), Some("S1"));
    assert_eq!(session_step(&mut s, msg(MessageKind::Heartbeat, None, None, None, None)), None);
    assert_eq!(
        session_step(&mut s, msg(MessageKind::Reject, None, None, None, Some("LS1"))),
        Some(SessionEvent::OrderReject { client_order_id: "LS1".to_string(), reason: "Order rejected".to_string() })
    );
    assert_eq!(session_step(&mut s, msg(MessageKind::Logout, None, None, None, None)), Some(SessionEvent::Disconnected));
    assert!(!s.connected);
    assert_eq!(s.session_id.as_deref(), Some("S1"));
}

#[test]
fn pending_orders_kept_until_canceled_or_rejected() {
    let mut pending: KeyedStore<LightspeedOrder> = KeyedStore::new();
    let o = create_stock_order("C", "A", "AAPL", "BUY", "MARKET", 1, None);
    assert_eq!(order_sent(&mut pending, "LS1".to_string(), o.clone(), SendOutcome::NoSender), Err(SendError::NoSender));
    assert_eq!(order_sent(&mut pending, "LS1".to_string(), o.clone(), SendOutcome::Failed), Err(SendError::SendFailed));
    assert_eq!(pending.len(), 0);
    assert_eq!(order_sent(&mut pending, "LS1".to_string(), o.clone(), SendOutcome::Sent), Ok("LS1".to_string()));
    assert_eq!(order_sent(&mut pending, "LS2".to_string(), o.clone(), SendOutcome::Sent), Ok("LS2".to_string()));
    assert_eq!(SendError::SendFailed.message(), "Failed to send order");
    assert_eq!(SendError::NoSender.message(), "Sender not available");
    settle_after_report(&mut pending, &ExecutionAction::Canceled { client_order_id: "LS1".to_string() });
    assert!(!pending.contains_key("LS1"));
    settle_after_update(&mut pending, &OrderUpdateAction::Ignore);
    assert!(pending.contains_key("LS2"));
    settle_after_update(
        &mut pending,
        &OrderUpdateAction::Rejected { client_order_id: "LS2".to_string(), reason: "x".to_string() },
    );
    assert_eq!(pending.len(), 0);
}

fn is_stamp(t: &str) -> bool {
    let b = t.as_bytes();
    b.len() == 21
        && b.iter().enumerate().all(|(i, c)| match i {
            8 => *c == b'-',
            11 | 14 => *c == b':',
            17 => *c == b'.',
            _ => c.is_ascii_digit(),
        })
}

#[test]
fn sending_times_have_the_broker_shape() {
    let o = create_stock_order("C", "A", "AAPL", "BUY", "MARKET", 1, None);
    let (p, _) = prepare_order(o, true, &Some("S".to_string())).ok().unwrap();
    assert!(is_stamp(p.sending_time.as_deref().unwrap()));
    match heartbeat_step(true, &Some("S".to_string())) {
        HeartbeatStep::Send(h) => assert!(is_stamp(&h.sending_time)),
        _ => panic!("a heartbeat is due"),
    }
}
