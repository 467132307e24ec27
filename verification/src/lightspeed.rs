//! The LightSpeed broker protocol: order messages, and what the broker's
//! replies mean for the session, the pending orders and the positions.
use vstd::prelude::*;
use vstd::string::*;
use crate::json::{json_object, json_object_text, text_pairs};
use crate::store::KeyedStore;
use crate::clock::is_sending_time;
use crate::types::{PositionSide, PositionStatus};
use crate::text::{
    same_text, u64_to_decimal, decimal_of, i32_to_decimal,
    signed_decimal_of, push_char,
};

verus! {

/// A stock order as sent to LightSpeed.
#[derive(Debug, Clone)]
pub struct LightspeedOrder {
    pub msg_type: String,
    pub client_id: String,
    pub account: String,
    pub session_id: Option<String>,
    pub client_order_id: Option<String>,
    pub sending_time: Option<String>,
    pub symbol: String,
    /// BUY, SELL, SELL_SHORT
    pub side: String,
    /// LIMIT, MARKET, STOP, ...
    pub order_type: String,
    pub order_qty: String,
    pub price: Option<String>,
    pub security_exchange: Option<String>,
    pub exchange_destination: Option<String>,
    pub security_type: Option<String>,
    pub put_or_call: Option<String>,
    pub strike_price: Option<String>,
    pub maturity_year_month: Option<String>,
    pub maturity_day: Option<String>,
    pub open_close: Option<String>,
    pub currency: Option<String>,
}

/// The logon message.
#[derive(Debug, Clone)]
pub struct LoginMessage {
    pub msg_type: String,
    pub api_key: String,
}

/// The heartbeat message.
#[derive(Debug, Clone)]
pub struct HeartbeatMessage {
    pub msg_type: String,
    pub session_id: String,
    pub sending_time: String,
}

pub open spec fn opt_view(o: Option<String>) -> Option<Seq<char>> {
    match o {
        Some(s) => Some(s@),
        None => None,
    }
}

/// A stock order for `quantity` shares, routed to NASDAQ with smart
/// destination; the session, the client order id and the sending time are
/// filled in when it is sent. `price` is the limit price's text, if any.
pub fn create_stock_order(
    client_id: &str,
    account_id: &str,
    symbol: &str,
    side: &str,
    order_type: &str,
    quantity: u64,
    price: Option<String>,
) -> (r: LightspeedOrder)
    ensures
        r.msg_type@ == "OrderSingle"@,
        r.client_id@ == client_id@,
        r.account@ == account_id@,
        r.session_id is None,
        r.client_order_id is None,
        r.sending_time is None,
        r.symbol@ == symbol@,
        r.side@ == side@,
        r.order_type@ == order_type@,
        r.order_qty@ == decimal_of(quantity as nat),
        opt_view(r.price) == opt_view(price),
        opt_view(r.security_exchange) == Some("NASDAQ"@),
        opt_view(r.exchange_destination) == Some("SMART"@),
        r.security_type is None,
        r.put_or_call is None,
        r.strike_price is None,
        r.maturity_year_month is None,
        r.maturity_day is None,
        r.open_close is None,
        r.currency is None,
{
    LightspeedOrder {
        msg_type: String::from_str("OrderSingle"),
        client_id: String::from_str(client_id),
        account: String::from_str(account_id),
        session_id: None,
        client_order_id: None,
        sending_time: None,
        symbol: String::from_str(symbol),
        side: String::from_str(side),
        order_type: String::from_str(order_type),
        order_qty: u64_to_decimal(quantity),
        price,
        security_exchange: Some(String::from_str("NASDAQ")),
        exchange_destination: Some(String::from_str("SMART")),
        security_type: None,
        put_or_call: None,
        strike_price: None,
        maturity_year_month: None,
        maturity_day: None,
        open_close: None,
        currency: None,
    }
}

/// Trusted: `uuid::Uuid::new_v4().to_string()`. uuid's source prints the
/// hyphenated form: 36 characters, `-` at positions 8, 13, 18 and 23, and
/// lower-case hexadecimal digits elsewhere. The value is random.
#[verifier::external_body]
fn new_uuid_text() -> (r: String)
    ensures
        r@.len() == 36,
        forall|i: int| 0 <= i < 36 ==> (#[trigger] r@[i] == '-' <==> (i == 8 || i == 13 || i == 18 || i == 23)),
        forall|i: int| 0 <= i < 36 && r@[i] != '-' ==> is_lower_hex(#[trigger] r@[i]),
{
    uuid::Uuid::new_v4().to_string()
}

pub open spec fn is_lower_hex(c: char) -> bool {
    ('0' <= c <= '9') || ('a' <= c <= 'f')
}

/// Trusted: the current time printed by chrono with
/// `Utc::now().format("%Y%m%d-%H:%M:%S%.3f")`. chrono reads the system clock
/// after the epoch (see `utc_now`) and prints the date and time of day of
/// that UTC instant and its milliseconds, truncated (`write_year`,
/// `Nanosecond3` in chrono's formatting); which instant it is, is not said.
#[verifier::external_body]
pub(crate) fn sending_time_now() -> (r: String)
    ensures
        is_sending_time(r@),
{
    chrono::Utc::now().format("%Y%m%d-%H:%M:%S%.3f").to_string()
}

/// The characters of a hyphenated identifier before position `i`, without
/// its hyphens (for `i` up to 21).
pub open spec fn dashless_prefix(u: Seq<char>, i: int) -> Seq<char> {
    if i <= 8 {
        u.subrange(0, i)
    } else if i <= 13 {
        u.subrange(0, 8) + u.subrange(9, i)
    } else if i <= 18 {
        u.subrange(0, 8) + u.subrange(9, 13) + u.subrange(14, i)
    } else {
        u.subrange(0, 8) + u.subrange(9, 13) + u.subrange(14, 18) + u.subrange(19, i)
    }
}

/// The first 18 hexadecimal digits of a hyphenated identifier.
fn leading_hex_digits(u: &String) -> (r: String)
    requires
        u@.len() == 36,
        forall|i: int| 0 <= i < 36 ==> (#[trigger] u@[i] == '-' <==> (i == 8 || i == 13 || i == 18 || i == 23)),
        forall|i: int| 0 <= i < 36 && u@[i] != '-' ==> is_lower_hex(#[trigger] u@[i]),
    ensures
        r@ == dashless_prefix(u@, 21),
        r@.len() == 18,
        forall|k: int| 0 <= k < 18 ==> is_lower_hex(#[trigger] r@[k]),
{
    let mut r = String::new();
    let mut i: usize = 0;
    assert(r@ =~= dashless_prefix(u@, 0));
    while i < 21
        invariant
            0 <= i <= 21,
            u@.len() == 36,
            forall|k: int| 0 <= k < 36 ==> (#[trigger] u@[k] == '-' <==> (k == 8 || k == 13 || k == 18 || k == 23)),
            forall|k: int| 0 <= k < 36 && u@[k] != '-' ==> is_lower_hex(#[trigger] u@[k]),
            r@ == dashless_prefix(u@, i as int),
            forall|k: int| 0 <= k < r@.len() ==> is_lower_hex(#[trigger] r@[k]),
        decreases 21 - i,
    {
        let c = u.as_str().get_char(i);
        if c != '-' {
            let ghost before = r@;
            push_char(&mut r, c);
            assert(is_lower_hex(u@[i as int]));
            assert(forall|k: int| 0 <= k < before.len() ==> r@[k] == before[k]);
            assert(r@ =~= dashless_prefix(u@, i + 1));
        } else {
            assert(i == 8 || i == 13 || i == 18);
            assert(r@ =~= dashless_prefix(u@, i + 1));
        }
        i = i + 1;
    }
    r
}

/// A lower-case hexadecimal digit in upper case; any other character is
/// left as it is.
pub open spec fn upper_hex_digit(c: char) -> char {
    if c == 'a' {
        'A'
    } else if c == 'b' {
        'B'
    } else if c == 'c' {
        'C'
    } else if c == 'd' {
        'D'
    } else if c == 'e' {
        'E'
    } else if c == 'f' {
        'F'
    } else {
        c
    }
}

pub open spec fn is_upper_hex(c: char) -> bool {
    ('0' <= c <= '9') || ('A' <= c <= 'F')
}

/// The upper-case form of a text of lower-case hexadecimal digits.
pub open spec fn upper_hex_of(digits: Seq<char>) -> Seq<char> {
    digits.map_values(|c: char| upper_hex_digit(c))
}

/// The client order ids that `new_client_order_id` gives: "LS" and 18
/// upper-case hexadecimal digits, 20 characters in all.
pub open spec fn is_client_order_id(id: Seq<char>) -> bool {
    &&& id.len() == 20
    &&& id.subrange(0, 2) == "LS"@
    &&& forall|k: int| 2 <= k < 20 ==> is_upper_hex(#[trigger] id[k])
}

/// Upper-cases a text of lower-case hexadecimal digits, as `to_uppercase`
/// does on them.
fn upper_hex_text(s: &String) -> (r: String)
    requires
        forall|k: int| 0 <= k < s@.len() ==> is_lower_hex(#[trigger] s@[k]),
    ensures
        r@ == upper_hex_of(s@),
        forall|k: int| 0 <= k < r@.len() ==> is_upper_hex(#[trigger] r@[k]),
{
    let mut r = String::new();
    let n = s.as_str().unicode_len();
    let mut i: usize = 0;
    while i < n
        invariant
            0 <= i <= n,
            n == s@.len(),
            forall|k: int| 0 <= k < s@.len() ==> is_lower_hex(#[trigger] s@[k]),
            r@ == upper_hex_of(s@.subrange(0, i as int)),
            forall|k: int| 0 <= k < r@.len() ==> is_upper_hex(#[trigger] r@[k]),
        decreases n - i,
    {
        let c = s.as_str().get_char(i);
        assert(is_lower_hex(s@[i as int]));
        let u = if c == 'a' {
            'A'
        } else if c == 'b' {
            'B'
        } else if c == 'c' {
            'C'
        } else if c == 'd' {
            'D'
        } else if c == 'e' {
            'E'
        } else if c == 'f' {
            'F'
        } else {
            c
        };
        let ghost before = r@;
        push_char(&mut r, u);
        assert(s@.subrange(0, i + 1) =~= s@.subrange(0, i as int).push(c));
        assert(r@ =~= upper_hex_of(s@.subrange(0, i + 1)));
        assert(forall|k: int| 0 <= k < before.len() ==> r@[k] == before[k]);
        i = i + 1;
    }
    assert(s@.subrange(0, n as int) =~= s@);
    r
}

/// A client order id: "LS" and the first 18 hexadecimal digits of a fresh
/// random identifier, in upper case (LightSpeed takes at most 20
/// characters).
pub fn new_client_order_id() -> (r: String)
    ensures
        is_client_order_id(r@),
        exists|digits: Seq<char>| #![trigger upper_hex_of(digits)] digits.len() == 18 && r@ == "LS"@ + upper_hex_of(digits)
            && forall|k: int| 0 <= k < 18 ==> is_lower_hex(#[trigger] digits[k]),
{
    let u = new_uuid_text();
    let digits = leading_hex_digits(&u);
    let upper = upper_hex_text(&digits);
    let mut r = String::from_str("LS");
    r.append(upper.as_str());
    proof {
        reveal_strlit("LS");
        assert(r@.subrange(0, 2) =~= "LS"@);
        assert forall|k: int| 2 <= k < 20 implies is_upper_hex(#[trigger] r@[k]) by {
            assert(r@[k] == upper@[k - 2]);
        }
    }
    r
}

/// Why an order cannot be sent.
#[derive(Debug, Clone, Copy, PartialEq, Eq, Structural)]
pub enum SendError {
    NotConnected,
    NoSession,
    /// The connection has no sender to hand the message to.
    NoSender,
    /// Handing the message to the connection failed.
    SendFailed,
}

impl SendError {
    /// The error's text.
    pub fn message(&self) -> (r: &'static str)
        ensures
            *self == SendError::NotConnected ==> r@ == "Not connected to LightSpeed"@,
            *self == SendError::NoSession ==> r@ == "No session ID available"@,
            *self == SendError::NoSender ==> r@ == "Sender not available"@,
            *self == SendError::SendFailed ==> r@ == "Failed to send order"@,
    {
        match self {
            SendError::NotConnected => "Not connected to LightSpeed",
            SendError::NoSession => "No session ID available",
            SendError::NoSender => "Sender not available",
            SendError::SendFailed => "Failed to send order",
        }
    }
}

/// The session to send under: refused while disconnected or before a
/// session was granted.
pub fn sending_session(connected: bool, session_id: &Option<String>) -> (r: Result<String, SendError>)
    ensures
        !connected ==> r == Err::<String, SendError>(SendError::NotConnected),
        connected && session_id is None ==> r == Err::<String, SendError>(SendError::NoSession),
        connected && session_id is Some ==> (r matches Ok(s) && s@ == session_id->Some_0@),
{
    if !connected {
        return Err(SendError::NotConnected);
    }
    match session_id {
        Some(s) => Ok(s.clone()),
        None => Err(SendError::NoSession),
    }
}

/// Fills in an order's session, client order id and sending time; refused
/// while disconnected or without a session.
pub fn prepare_order(order: LightspeedOrder, connected: bool, session_id: &Option<String>) -> (r: Result<(LightspeedOrder, String), SendError>)
    ensures
        !connected ==> r == Err::<(LightspeedOrder, String), SendError>(SendError::NotConnected),
        connected && session_id is None ==> r == Err::<(LightspeedOrder, String), SendError>(SendError::NoSession),
        connected && session_id is Some ==> (r matches Ok((o, id)) && {
            &&& opt_view(o.session_id) == opt_view(*session_id)
            &&& opt_view(o.client_order_id) == Some(id@)
            &&& o.sending_time matches Some(t) && is_sending_time(t@)
            &&& o.symbol == order.symbol
            &&& o.side == order.side
            &&& o.order_type == order.order_type
            &&& o.order_qty == order.order_qty
            &&& o.price == order.price
            &&& o.client_id == order.client_id
            &&& o.account == order.account
            &&& is_client_order_id(id@)
        }),
{
    let session = match sending_session(connected, session_id) {
        Ok(s) => s,
        Err(e) => return Err(e),
    };
    let client_order_id = new_client_order_id();
    let mut o = order;
    o.session_id = Some(session);
    o.client_order_id = Some(client_order_id.clone());
    o.sending_time = Some(sending_time_now());
    Ok((o, client_order_id))
}

/// The kinds of message LightSpeed sends.
#[derive(Debug, Clone, Copy, PartialEq, Eq, Structural)]
pub enum MessageKind {
    Logon,
    ExecutionReport,
    OrderSingleUpdate,
    PositionUpdate,
    PositionStatus,
    /// OrderCancelReject or OrderReject.
    Reject,
    Heartbeat,
    Logout,
    Other,
}

pub open spec fn message_kind_of(t: Seq<char>) -> MessageKind {
    if t == "Logon"@ {
        MessageKind::Logon
    } else if t == "ExecutionReport"@ {
        MessageKind::ExecutionReport
    } else if t == "OrderSingleUpdate"@ {
        MessageKind::OrderSingleUpdate
    } else if t == "PositionUpdate"@ {
        MessageKind::PositionUpdate
    } else if t == "PositionStatus"@ {
        MessageKind::PositionStatus
    } else if t == "OrderCancelReject"@ || t == "OrderReject"@ {
        MessageKind::Reject
    } else if t == "Heartbeat"@ {
        MessageKind::Heartbeat
    } else if t == "Logout"@ {
        MessageKind::Logout
    } else {
        MessageKind::Other
    }
}

/// The kind of a message, by its `MsgType`.
pub fn message_kind(msg_type: &str) -> (r: MessageKind)
    ensures
        r == message_kind_of(msg_type@),
{
    if same_text(msg_type, "Logon") {
        MessageKind::Logon
    } else if same_text(msg_type, "ExecutionReport") {
        MessageKind::ExecutionReport
    } else if same_text(msg_type, "OrderSingleUpdate") {
        MessageKind::OrderSingleUpdate
    } else if same_text(msg_type, "PositionUpdate") {
        MessageKind::PositionUpdate
    } else if same_text(msg_type, "PositionStatus") {
        MessageKind::PositionStatus
    } else if same_text(msg_type, "OrderCancelReject") || same_text(msg_type, "OrderReject") {
        MessageKind::Reject
    } else if same_text(msg_type, "Heartbeat") {
        MessageKind::Heartbeat
    } else if same_text(msg_type, "Logout") {
        MessageKind::Logout
    } else {
        MessageKind::Other
    }
}

/// What a logon reply means.
#[derive(Debug, Clone)]
pub enum LogonOutcome {
    /// The reply carries no error code: nothing changes.
    Unanswered,
    /// Logged in with this session.
    LoggedIn(String),
    /// Accepted, but without a session: nothing changes.
    NoSession,
    /// Refused, with the reason.
    Refused(String),
}

/// A logon reply with error code 0 or 351 is accepted (and logs in when it
/// names a session); any other code is refused with the error text, or
/// "Login failed with code: <code>".
pub fn logon_outcome(error_code: Option<i32>, session_id: Option<String>, error_text: Option<String>) -> (r: LogonOutcome)
    ensures
        error_code is None ==> r is Unanswered,
        error_code matches Some(c) && (c == 0 || c == 351) ==> match session_id {
            Some(s) => r matches LogonOutcome::LoggedIn(t) && t@ == s@,
            None => r is NoSession,
        },
        (error_code is Some && error_code->Some_0 != 0 && error_code->Some_0 != 351) ==> (r matches LogonOutcome::Refused(m)
            && m@ == match error_text {
                Some(t) => t@,
                None => "Login failed with code: "@ + signed_decimal_of(error_code->Some_0 as int),
            }),
{
    match error_code {
        None => LogonOutcome::Unanswered,
        Some(c) => {
            if c == 0 || c == 351 {
                match session_id {
                    Some(s) => LogonOutcome::LoggedIn(s),
                    None => LogonOutcome::NoSession,
                }
            } else {
                let message = match error_text {
                    Some(t) => t,
                    None => {
                        let mut m = String::from_str("Login failed with code: ");
                        let code = i32_to_decimal(c);
                        m.append(code.as_str());
                        m
                    },
                };
                LogonOutcome::Refused(message)
            }
        },
    }
}

/// The reason given for a rejected order: the error text, or "Order
/// rejected".
pub fn reject_reason(error_text: &Option<String>) -> (r: String)
    ensures
        r@ == match *error_text {
            Some(t) => t@,
            None => "Order rejected"@,
        },
{
    match error_text {
        Some(t) => t.clone(),
        None => String::from_str("Order rejected"),
    }
}

/// The fields of an execution report that decide what it means.
pub struct ExecutionReport {
    pub client_order_id: Option<String>,
    pub exec_type: Option<String>,
    pub order_id: Option<String>,
    pub symbol: Option<String>,
    pub side: Option<String>,
    pub last_qty: Option<String>,
    pub last_px: Option<String>,
    pub error_text: Option<String>,
}

/// What an execution report means.
#[derive(Debug, Clone)]
pub enum ExecutionAction {
    Ignore,
    /// The order was acknowledged under the broker's order id.
    Acknowledged { client_order_id: String, order_id: String },
    /// Shares were filled: the quantity and price are still text.
    Filled { client_order_id: String, symbol: String, side: String, last_qty: String, last_px: String },
    /// The order was canceled: it is no longer pending.
    Canceled { client_order_id: String },
    /// The order was rejected: it is no longer pending.
    Rejected { client_order_id: String, reason: String },
}

pub open spec fn exec_class(t: Seq<char>) -> int {
    if t == "0"@ || t == "NEW"@ {
        0
    } else if t == "1"@ || t == "PARTIAL_FILL"@ || t == "2"@ || t == "FILL"@ {
        1
    } else if t == "4"@ || t == "CANCELED"@ {
        2
    } else if t == "8"@ || t == "REJECTED"@ {
        3
    } else {
        4
    }
}

/// Reads an execution report: types 0/NEW acknowledge (when an order id is
/// given), 1/PARTIAL_FILL/2/FILL fill (when symbol, side, quantity and price
/// are given), 4/CANCELED cancel, 8/REJECTED reject; anything else, and any
/// report without a client order id, is ignored.
pub fn execution_action(report: &ExecutionReport) -> (r: ExecutionAction)
    ensures
        report.client_order_id is None ==> r is Ignore,
        report.client_order_id matches Some(id) ==> match report.exec_type {
            None => r is Ignore,
            Some(t) => {
                let class = exec_class(t@);
                &&& class == 0 ==> match report.order_id {
                    Some(o) => r matches ExecutionAction::Acknowledged { client_order_id, order_id }
                        && client_order_id@ == id@ && order_id@ == o@,
                    None => r is Ignore,
                }
                &&& class == 1 ==> if report.symbol is Some && report.side is Some && report.last_qty is Some
                    && report.last_px is Some {
                    r matches ExecutionAction::Filled { client_order_id, symbol, side, last_qty, last_px }
                        && client_order_id@ == id@ && symbol@ == report.symbol->Some_0@
                        && side@ == report.side->Some_0@ && last_qty@ == report.last_qty->Some_0@
                        && last_px@ == report.last_px->Some_0@
                } else {
                    r is Ignore
                }
                &&& class == 2 ==> (r matches ExecutionAction::Canceled { client_order_id } && client_order_id@ == id@)
                &&& class == 3 ==> (r matches ExecutionAction::Rejected { client_order_id, reason }
                    && client_order_id@ == id@ && reason@ == match report.error_text {
                        Some(e) => e@,
                        None => "Order rejected"@,
                    })
                &&& class == 4 ==> r is Ignore
            },
        },
{
    let id = match &report.client_order_id {
        Some(id) => id,
        None => return ExecutionAction::Ignore,
    };
    let t = match &report.exec_type {
        Some(t) => t.as_str(),
        None => return ExecutionAction::Ignore,
    };
    if same_text(t, "0") || same_text(t, "NEW") {
        match &report.order_id {
            Some(o) => ExecutionAction::Acknowledged { client_order_id: id.clone(), order_id: o.clone() },
            None => ExecutionAction::Ignore,
        }
    } else if same_text(t, "1") || same_text(t, "PARTIAL_FILL") || same_text(t, "2") || same_text(t, "FILL") {
        match (&report.symbol, &report.side, &report.last_qty, &report.last_px) {
            (Some(symbol), Some(side), Some(q), Some(p)) => ExecutionAction::Filled {
                client_order_id: id.clone(),
                symbol: symbol.clone(),
                side: side.clone(),
                last_qty: q.clone(),
                last_px: p.clone(),
            },
            _ => ExecutionAction::Ignore,
        }
    } else if same_text(t, "4") || same_text(t, "CANCELED") {
        ExecutionAction::Canceled { client_order_id: id.clone() }
    } else if same_text(t, "8") || same_text(t, "REJECTED") {
        ExecutionAction::Rejected { client_order_id: id.clone(), reason: reject_reason(&report.error_text) }
    } else {
        ExecutionAction::Ignore
    }
}

/// What an order status update means.
#[derive(Debug, Clone)]
pub enum OrderUpdateAction {
    Ignore,
    Acknowledged { client_order_id: String, order_id: String },
    Rejected { client_order_id: String, reason: String },
}

/// Reads an order status update: NEW acknowledges (when an order id is
/// given), REJECTED rejects; PENDING_NEW, PARTIALLY_FILLED, FILLED and other
/// states change nothing.
pub fn order_update_action(
    client_order_id: &Option<String>,
    order_status: &Option<String>,
    order_id: &Option<String>,
    error_text: &Option<String>,
) -> (r: OrderUpdateAction)
    ensures
        match (*client_order_id, *order_status) {
            (Some(id), Some(st)) => if st@ == "NEW"@ {
                match *order_id {
                    Some(o) => r matches OrderUpdateAction::Acknowledged { client_order_id, order_id }
                        && client_order_id@ == id@ && order_id@ == o@,
                    None => r is Ignore,
                }
            } else if st@ == "REJECTED"@ {
                r matches OrderUpdateAction::Rejected { client_order_id, reason } && client_order_id@ == id@
                    && reason@ == match *error_text {
                        Some(e) => e@,
                        None => "Order rejected"@,
                    }
            } else {
                r is Ignore
            },
            _ => r is Ignore,
        },
{
    match (client_order_id, order_status) {
        (Some(id), Some(st)) => {
            if same_text(st.as_str(), "NEW") {
                match order_id {
                    Some(o) => OrderUpdateAction::Acknowledged { client_order_id: id.clone(), order_id: o.clone() },
                    None => OrderUpdateAction::Ignore,
                }
            } else if same_text(st.as_str(), "REJECTED") {
                OrderUpdateAction::Rejected { client_order_id: id.clone(), reason: reject_reason(error_text) }
            } else {
                OrderUpdateAction::Ignore
            }
        },
        _ => OrderUpdateAction::Ignore,
    }
}

/// A position's side, size and state as the broker tracks them.
#[derive(Debug, Clone, Copy, PartialEq, Eq, Structural)]
pub struct Holding {
    pub side: PositionSide,
    pub quantity: u64,
    pub status: PositionStatus,
}

/// The holding a new symbol starts from: long, no shares, open.
pub open spec fn fresh_holding() -> Holding {
    Holding { side: PositionSide::Long, quantity: 0, status: PositionStatus::Open }
}

pub open spec fn fill_of(h: Holding, side: Seq<char>, qty: u64) -> (Holding, bool) {
    if side == "BUY"@ {
        (Holding { side: PositionSide::Long, quantity: (h.quantity + qty) as u64, status: h.status }, false)
    } else if side == "SELL"@ || side == "SELL_SHORT"@ {
        if h.quantity >= qty {
            let q = (h.quantity - qty) as u64;
            if q == 0 {
                (Holding { side: h.side, quantity: 0, status: PositionStatus::Closed }, true)
            } else {
                (Holding { side: h.side, quantity: q, status: h.status }, false)
            }
        } else {
            (Holding { side: PositionSide::Short, quantity: (qty - h.quantity) as u64, status: h.status }, false)
        }
    } else {
        (h, false)
    }
}

/// Applies a fill of `qty` shares to a holding (a fresh one when the symbol
/// has none): a BUY adds shares and makes the position long; a SELL or
/// SELL_SHORT removes shares, closing the position when none remain, or
/// turns it short by the excess. The flag says whether the position closed.
pub fn apply_fill(held: Option<Holding>, side: &str, qty: u64) -> (r: (Holding, bool))
    requires
        held matches Some(h) ==> h.quantity + qty <= u64::MAX,
    ensures
        r == fill_of(
            match held {
                Some(h) => h,
                None => fresh_holding(),
            },
            side@,
            qty,
        ),
{
    let h = match held {
        Some(h) => h,
        None => Holding { side: PositionSide::Long, quantity: 0, status: PositionStatus::Open },
    };
    if same_text(side, "BUY") {
        (Holding { side: PositionSide::Long, quantity: h.quantity + qty, status: h.status }, false)
    } else if same_text(side, "SELL") || same_text(side, "SELL_SHORT") {
        if h.quantity >= qty {
            let q = h.quantity - qty;
            if q == 0 {
                (Holding { side: h.side, quantity: 0, status: PositionStatus::Closed }, true)
            } else {
                (Holding { side: h.side, quantity: q, status: h.status }, false)
            }
        } else {
            (Holding { side: PositionSide::Short, quantity: qty - h.quantity, status: h.status }, false)
        }
    } else {
        (h, false)
    }
}

/// What a position report from the broker says of a symbol.
#[derive(Debug, Clone, Copy, PartialEq, Eq, Structural)]
pub enum ReportedPosition {
    /// No shares: the position is closed.
    Flat,
    /// Held on this side with this many shares.
    Held { side: PositionSide, quantity: u64 },
}

/// Reads a reported share count: positive is long, negative short, zero
/// flat.
pub fn reported_position(pos_qty: i64) -> (r: ReportedPosition)
    requires
        pos_qty != i64::MIN,
    ensures
        pos_qty == 0 ==> r == ReportedPosition::Flat,
        pos_qty > 0 ==> r == (ReportedPosition::Held { side: PositionSide::Long, quantity: pos_qty as u64 }),
        pos_qty < 0 ==> r == (ReportedPosition::Held { side: PositionSide::Short, quantity: (-pos_qty) as u64 }),
{
    if pos_qty == 0 {
        ReportedPosition::Flat
    } else if pos_qty > 0 {
        ReportedPosition::Held { side: PositionSide::Long, quantity: pos_qty as u64 }
    } else {
        ReportedPosition::Held { side: PositionSide::Short, quantity: (0 - pos_qty) as u64 }
    }
}

// ----- Messages as they are sent -----

/// A member when the value is present, nothing otherwise.
pub open spec fn opt_member(key: Seq<char>, value: Option<String>) -> Seq<(Seq<char>, Seq<char>)> {
    match value {
        Some(v) => seq![(key, v@)],
        None => Seq::empty(),
    }
}

/// The members of an order as it is sent: its fields in order under their
/// protocol names, with the absent optional ones left out.
pub open spec fn order_members(o: LightspeedOrder) -> Seq<(Seq<char>, Seq<char>)> {
    seq![("MsgType"@, o.msg_type@), ("ClientID"@, o.client_id@), ("Account"@, o.account@)]
        + opt_member("SessionId"@, o.session_id)
        + opt_member("ClientOrderID"@, o.client_order_id)
        + opt_member("SendingTime"@, o.sending_time)
        + seq![("Symbol"@, o.symbol@), ("Side"@, o.side@), ("OrderType"@, o.order_type@), ("OrderQty"@, o.order_qty@)]
        + opt_member("Price"@, o.price)
        + opt_member("SecurityExchange"@, o.security_exchange)
        + opt_member("ExchangeDestination"@, o.exchange_destination)
        + opt_member("SecurityType"@, o.security_type)
        + opt_member("PutOrCall"@, o.put_or_call)
        + opt_member("StrikePrice"@, o.strike_price)
        + opt_member("MaturityYearMonth"@, o.maturity_year_month)
        + opt_member("MaturityDay"@, o.maturity_day)
        + opt_member("OpenClose"@, o.open_close)
        + opt_member("Currency"@, o.currency)
}

fn push_member(v: &mut Vec<(String, String)>, key: &str, value: &String)
    ensures
        text_pairs(final(v)@) == text_pairs(old(v)@) + seq![(key@, value@)],
{
    let ghost before = v@;
    v.push((String::from_str(key), value.clone()));
    assert(text_pairs(v@) =~= text_pairs(before) + seq![(key@, value@)]);
}

fn push_opt_member(v: &mut Vec<(String, String)>, key: &str, value: &Option<String>)
    ensures
        text_pairs(final(v)@) == text_pairs(old(v)@) + opt_member(key@, *value),
{
    match value {
        Some(x) => push_member(v, key, x),
        None => {
            assert(text_pairs(v@) =~= text_pairs(v@) + opt_member(key@, *value));
        },
    }
}

impl LightspeedOrder {
    /// The order as the JSON text that is sent.
    #[verifier::spinoff_prover]
    #[verifier::rlimit(40)]
    pub fn to_json(&self) -> (r: String)
        ensures
            r@ == json_object(order_members(*self)),
    {
        let mut v: Vec<(String, String)> = Vec::new();
        push_member(&mut v, "MsgType", &self.msg_type);
        push_member(&mut v, "ClientID", &self.client_id);
        push_member(&mut v, "Account", &self.account);
        push_opt_member(&mut v, "SessionId", &self.session_id);
        push_opt_member(&mut v, "ClientOrderID", &self.client_order_id);
        push_opt_member(&mut v, "SendingTime", &self.sending_time);
        push_member(&mut v, "Symbol", &self.symbol);
        push_member(&mut v, "Side", &self.side);
        push_member(&mut v, "OrderType", &self.order_type);
        push_member(&mut v, "OrderQty", &self.order_qty);
        push_opt_member(&mut v, "Price", &self.price);
        push_opt_member(&mut v, "SecurityExchange", &self.security_exchange);
        push_opt_member(&mut v, "ExchangeDestination", &self.exchange_destination);
        push_opt_member(&mut v, "SecurityType", &self.security_type);
        push_opt_member(&mut v, "PutOrCall", &self.put_or_call);
        push_opt_member(&mut v, "StrikePrice", &self.strike_price);
        push_opt_member(&mut v, "MaturityYearMonth", &self.maturity_year_month);
        push_opt_member(&mut v, "MaturityDay", &self.maturity_day);
        push_opt_member(&mut v, "OpenClose", &self.open_close);
        push_opt_member(&mut v, "Currency", &self.currency);
        assert(text_pairs(v@) =~= order_members(*self));
        json_object_text(&v)
    }
}

impl LoginMessage {
    /// The logon message for an API key.
    pub fn logon(api_key: &str) -> (r: Self)
        ensures
            r.msg_type@ == "Logon"@,
            r.api_key@ == api_key@,
    {
        LoginMessage { msg_type: String::from_str("Logon"), api_key: String::from_str(api_key) }
    }

    /// The message as the JSON text that is sent.
    pub fn to_json(&self) -> (r: String)
        ensures
            r@ == json_object(seq![("MsgType"@, self.msg_type@), ("ApiKey"@, self.api_key@)]),
    {
        let mut v: Vec<(String, String)> = Vec::new();
        push_member(&mut v, "MsgType", &self.msg_type);
        push_member(&mut v, "ApiKey", &self.api_key);
        assert(text_pairs(v@) =~= seq![("MsgType"@, self.msg_type@), ("ApiKey"@, self.api_key@)]);
        json_object_text(&v)
    }
}

impl HeartbeatMessage {
    /// The message as the JSON text that is sent.
    pub fn to_json(&self) -> (r: String)
        ensures
            r@ == json_object(
                seq![("MsgType"@, self.msg_type@), ("SessionId"@, self.session_id@), ("SendingTime"@, self.sending_time@)],
            ),
    {
        let mut v: Vec<(String, String)> = Vec::new();
        push_member(&mut v, "MsgType", &self.msg_type);
        push_member(&mut v, "SessionId", &self.session_id);
        push_member(&mut v, "SendingTime", &self.sending_time);
        assert(text_pairs(v@) =~= seq![("MsgType"@, self.msg_type@), ("SessionId"@, self.session_id@), ("SendingTime"@, self.sending_time@)]);
        json_object_text(&v)
    }
}

/// What the heartbeat task does at each tick.
#[derive(Debug, Clone)]
pub enum HeartbeatStep {
    /// The connection is gone: the task ends.
    Stop,
    /// No session yet: nothing is sent this time.
    Wait,
    /// Send this heartbeat.
    Send(HeartbeatMessage),
}

/// At each tick: stop once disconnected; with a session, send a heartbeat
/// stamped with the current time; without one, wait.
pub fn heartbeat_step(connected: bool, session_id: &Option<String>) -> (r: HeartbeatStep)
    ensures
        !connected ==> r is Stop,
        connected && session_id is None ==> r is Wait,
        connected && session_id is Some ==> (r matches HeartbeatStep::Send(h) && h.msg_type@ == "Heartbeat"@
            && h.session_id@ == session_id->Some_0@ && is_sending_time(h.sending_time@)),
{
    if !connected {
        return HeartbeatStep::Stop;
    }
    match session_id {
        Some(s) => HeartbeatStep::Send(
            HeartbeatMessage {
                msg_type: String::from_str("Heartbeat"),
                session_id: s.clone(),
                sending_time: sending_time_now(),
            },
        ),
        None => HeartbeatStep::Wait,
    }
}

/// The members of a cancel request, in the order its JSON object keeps them
/// (sorted by key).
pub open spec fn cancel_members(client_id: Seq<char>, session_id: Seq<char>, orig_client_order_id: Seq<char>, sending_time: Seq<char>) -> Seq<(Seq<char>, Seq<char>)> {
    seq![
        ("ClientID"@, client_id),
        ("MsgType"@, "OrderCancel"@),
        ("OrigClientOrderID"@, orig_client_order_id),
        ("SendingTime"@, sending_time),
        ("SessionId"@, session_id),
    ]
}

/// The text of a request to cancel an order, stamped with the current time;
/// refused while disconnected or without a session.
pub fn cancel_message(client_id: &str, orig_client_order_id: &str, connected: bool, session_id: &Option<String>) -> (r: Result<String, SendError>)
    ensures
        !connected ==> r == Err::<String, SendError>(SendError::NotConnected),
        connected && session_id is None ==> r == Err::<String, SendError>(SendError::NoSession),
        connected && session_id is Some ==> (r matches Ok(m) && exists|t: Seq<char>|
            is_sending_time(t) && m@ == json_object(cancel_members(client_id@, session_id->Some_0@, orig_client_order_id@, t))),
{
    let session = match sending_session(connected, session_id) {
        Ok(s) => s,
        Err(e) => return Err(e),
    };
    let time = sending_time_now();
    let mut v: Vec<(String, String)> = Vec::new();
    let cid = String::from_str(client_id);
    let kind = String::from_str("OrderCancel");
    let orig = String::from_str(orig_client_order_id);
    push_member(&mut v, "ClientID", &cid);
    push_member(&mut v, "MsgType", &kind);
    push_member(&mut v, "OrigClientOrderID", &orig);
    push_member(&mut v, "SendingTime", &time);
    push_member(&mut v, "SessionId", &session);
    assert(text_pairs(v@) =~= cancel_members(client_id@, session@, orig_client_order_id@, time@));
    Ok(json_object_text(&v))
}

// ----- The broker's positions by symbol -----

/// Records a fill of `qty` shares of `symbol` in the broker's positions (see
/// `fill_of`); the flag says whether the position closed.
pub fn record_fill(book: &mut KeyedStore<Holding>, symbol: String, side: &str, qty: u64) -> (r: bool)
    requires
        old(book).wf(),
        old(book)@.contains_key(symbol@) ==> old(book)@[symbol@].quantity + qty <= u64::MAX,
    ensures
        final(book).wf(),
        ({
            let (h, closed) = fill_of(
                if old(book)@.contains_key(symbol@) { old(book)@[symbol@] } else { fresh_holding() },
                side@,
                qty,
            );
            &&& final(book)@ == old(book)@.insert(symbol@, h)
            &&& r == closed
        }),
{
    let held = match book.get(symbol.as_str()) {
        Some(h) => Some(*h),
        None => None,
    };
    let (h, closed) = apply_fill(held, side, qty);
    let _ = book.insert(symbol, h);
    closed
}

/// The holding a position report leaves for a symbol with a non-zero share
/// count: the side by the count's sign and its size; a report of a position
/// update also re-opens it, a position status report keeps its state.
pub open spec fn reported_holding(held: Option<Holding>, pos_qty: i64, reopen: bool) -> Holding {
    let side = if pos_qty > 0 { PositionSide::Long } else { PositionSide::Short };
    let quantity = if pos_qty > 0 { pos_qty as u64 } else { (-pos_qty) as u64 };
    match held {
        Some(h) => Holding { side, quantity, status: if reopen { PositionStatus::Open } else { h.status } },
        None => Holding { side, quantity, status: PositionStatus::Open },
    }
}

/// The positions after a report for `symbol`: a zero count closes a known
/// position when the report is a position update, and is ignored in a
/// position status report; any other count sets the position (see
/// `reported_holding`).
pub open spec fn after_report(m: Map<Seq<char>, Holding>, symbol: Seq<char>, pos_qty: i64, reopen: bool) -> Map<Seq<char>, Holding> {
    if pos_qty == 0 {
        if reopen && m.contains_key(symbol) {
            m.insert(symbol, Holding { side: m[symbol].side, quantity: 0, status: PositionStatus::Closed })
        } else {
            m
        }
    } else {
        m.insert(symbol, reported_holding(if m.contains_key(symbol) { Some(m[symbol]) } else { None }, pos_qty, reopen))
    }
}

/// Applies a position report for `symbol`; `update` tells a position
/// update (which also closes and re-opens positions) from a position status
/// report (see `after_report`).
pub fn record_position_report(book: &mut KeyedStore<Holding>, symbol: String, pos_qty: i64, update: bool)
    requires
        old(book).wf(),
        pos_qty != i64::MIN,
    ensures
        final(book).wf(),
        final(book)@ == after_report(old(book)@, symbol@, pos_qty, update),
{
    let held = match book.get(symbol.as_str()) {
        Some(h) => Some(*h),
        None => None,
    };
    match reported_position(pos_qty) {
        ReportedPosition::Flat => {
            if update {
                match held {
                    Some(h) => {
                        let _ = book.insert(symbol, Holding { side: h.side, quantity: 0, status: PositionStatus::Closed });
                    },
                    None => {},
                }
            }
        },
        ReportedPosition::Held { side, quantity } => {
            let status = match held {
                Some(h) => if update { PositionStatus::Open } else { h.status },
                None => PositionStatus::Open,
            };
            let _ = book.insert(symbol, Holding { side, quantity, status });
        },
    }
}

/// Selling every share of a position closes it, and selling more than is
/// held turns it short by the excess; buying always leaves it long.
pub proof fn law_fills_move_holdings(h: Holding, qty: u64)
    ensures
        fill_of(h, "SELL"@, h.quantity).0.quantity == 0,
        fill_of(h, "SELL"@, h.quantity).0.status == PositionStatus::Closed,
        fill_of(h, "SELL"@, h.quantity).1,
        qty > h.quantity ==> fill_of(h, "SELL_SHORT"@, qty).0 == (Holding {
            side: PositionSide::Short,
            quantity: (qty - h.quantity) as u64,
            status: h.status,
        }),
        h.quantity + qty <= u64::MAX ==> fill_of(h, "BUY"@, qty).0.side == PositionSide::Long
            && fill_of(h, "BUY"@, qty).0.quantity == h.quantity + qty,
{
    reveal_strlit("SELL");
    reveal_strlit("BUY");
    reveal_strlit("SELL_SHORT");
    assert("SELL"@ != "BUY"@) by {
        assert("SELL"@.len() != "BUY"@.len());
    }
    assert("SELL_SHORT"@ != "BUY"@) by {
        assert("SELL_SHORT"@.len() != "BUY"@.len());
    }
}

/// A sale (SELL or SELL_SHORT) of at most the shares held takes exactly
/// those shares off and keeps the side, closing the position exactly when
/// none are left; a larger sale turns it short by the excess; a purchase
/// adds the shares and makes it long; any other side changes nothing. Two
/// sales in a row take off as much as one sale of both amounts.
pub proof fn law_fill_amounts(h: Holding, side: Seq<char>, qty: u64, more: u64)
    ensures
        (side == "SELL"@ || side == "SELL_SHORT"@) && qty <= h.quantity ==> {
            let (r, closed) = fill_of(h, side, qty);
            &&& r.quantity == h.quantity - qty
            &&& r.side == h.side
            &&& closed <==> qty == h.quantity
            &&& (r.status == PositionStatus::Closed) <== closed
            &&& qty < h.quantity ==> r.status == h.status
        },
        (side == "SELL"@ || side == "SELL_SHORT"@) && qty > h.quantity ==> {
            let (r, closed) = fill_of(h, side, qty);
            &&& r.quantity == qty - h.quantity
            &&& r.side == PositionSide::Short
            &&& !closed
        },
        side == "BUY"@ && h.quantity + qty <= u64::MAX ==> {
            let (r, closed) = fill_of(h, side, qty);
            &&& r.quantity == h.quantity + qty
            &&& r.side == PositionSide::Long
            &&& r.status == h.status
            &&& !closed
        },
        side != "BUY"@ && side != "SELL"@ && side != "SELL_SHORT"@ ==> fill_of(h, side, qty) == (h, false),
        (side == "SELL"@ || side == "SELL_SHORT"@) && qty + more < h.quantity ==>
            fill_of(fill_of(h, side, qty).0, side, more).0.quantity == h.quantity - qty - more
            && fill_of(fill_of(h, side, qty).0, side, more).0.quantity == fill_of(h, side, (qty + more) as u64).0.quantity,
{
    reveal_strlit("SELL");
    reveal_strlit("BUY");
    reveal_strlit("SELL_SHORT");
    assert("SELL"@ != "BUY"@) by {
        assert("SELL"@.len() != "BUY"@.len());
    }
    assert("SELL_SHORT"@ != "BUY"@) by {
        assert("SELL_SHORT"@.len() != "BUY"@.len());
    }
}

// ----- The session and the pending orders -----

/// The state of the broker connection as the broker's messages leave it.
#[derive(Debug, Clone, PartialEq, Eq)]
pub struct BrokerSession {
    pub session_id: Option<String>,
    pub connected: bool,
}

impl BrokerSession {
    /// Not connected, and no session yet.
    pub fn new() -> (r: Self)
        ensures
            r.session_id is None,
            !r.connected,
    {
        BrokerSession { session_id: None, connected: false }
    }
}

/// What the connection reports to its listeners after a message.
#[derive(Debug, Clone, PartialEq, Eq)]
pub enum SessionEvent {
    Connected,
    Disconnected,
    Error { message: String },
    OrderReject { client_order_id: String, reason: String },
}

/// The fields of a broker message that decide the session's state.
#[derive(Debug, Clone)]
pub struct SessionMessage {
    pub kind: MessageKind,
    pub error_code: Option<i32>,
    pub session_id: Option<String>,
    pub error_text: Option<String>,
    pub client_order_id: Option<String>,
}

/// Applies a message to the session: a logon reply with code 0 or 351 that
/// names a session logs in (connected, that session, `Connected`); a logon
/// reply with another code reports the error and changes nothing; a logout
/// disconnects (`Disconnected`); an order or cancel rejection with a client
/// order id is reported; every other message, and a logon reply without a
/// code or a session, changes nothing and reports nothing.
pub fn session_step(state: &mut BrokerSession, msg: SessionMessage) -> (r: Option<SessionEvent>)
    ensures
        msg.kind == MessageKind::Logon ==> match msg.error_code {
            None => *final(state) == *old(state) && r is None,
            Some(c) => if c == 0 || c == 351 {
                match msg.session_id {
                    Some(s) => final(state).connected && opt_view(final(state).session_id) == Some(s@)
                        && r == Some(SessionEvent::Connected),
                    None => *final(state) == *old(state) && r is None,
                }
            } else {
                &&& *final(state) == *old(state)
                &&& r matches Some(SessionEvent::Error { message })
                &&& message@ == match msg.error_text {
                    Some(t) => t@,
                    None => "Login failed with code: "@ + signed_decimal_of(c as int),
                }
            },
        },
        msg.kind == MessageKind::Logout ==> !final(state).connected && final(state).session_id == old(state).session_id
            && r == Some(SessionEvent::Disconnected),
        msg.kind == MessageKind::Reject ==> *final(state) == *old(state) && match msg.client_order_id {
            Some(id) => r matches Some(SessionEvent::OrderReject { client_order_id, reason }) && client_order_id@ == id@
                && reason@ == match msg.error_text {
                    Some(t) => t@,
                    None => "Order rejected"@,
                },
            None => r is None,
        },
        msg.kind != MessageKind::Logon && msg.kind != MessageKind::Logout && msg.kind != MessageKind::Reject
            ==> *final(state) == *old(state) && r is None,
{
    match msg.kind {
        MessageKind::Logon => match logon_outcome(msg.error_code, msg.session_id, msg.error_text) {
            LogonOutcome::LoggedIn(s) => {
                state.session_id = Some(s);
                state.connected = true;
                Some(SessionEvent::Connected)
            },
            LogonOutcome::Refused(m) => Some(SessionEvent::Error { message: m }),
            _ => None,
        },
        MessageKind::Logout => {
            state.connected = false;
            Some(SessionEvent::Disconnected)
        },
        MessageKind::Reject => match msg.client_order_id {
            Some(id) => Some(SessionEvent::OrderReject { client_order_id: id, reason: reject_reason(&msg.error_text) }),
            None => None,
        },
        _ => None,
    }
}

/// What became of handing a prepared order to the connection.
#[derive(Debug, Clone, Copy, PartialEq, Eq, Structural)]
pub enum SendOutcome {
    Sent,
    Failed,
    NoSender,
}

/// Settles a prepared order once the connection was asked to send it: a sent
/// order is pending under its client order id, which is returned; otherwise
/// the pending orders are left as they were and the error says why.
pub fn order_sent(
    pending: &mut KeyedStore<LightspeedOrder>,
    client_order_id: String,
    order: LightspeedOrder,
    outcome: SendOutcome,
) -> (r: Result<String, SendError>)
    requires
        old(pending).wf(),
    ensures
        final(pending).wf(),
        outcome == SendOutcome::Sent ==> (r matches Ok(id) && id@ == client_order_id@)
            && final(pending)@ == old(pending)@.insert(client_order_id@, order),
        outcome == SendOutcome::Failed ==> r == Err::<String, SendError>(SendError::SendFailed)
            && final(pending)@ == old(pending)@,
        outcome == SendOutcome::NoSender ==> r == Err::<String, SendError>(SendError::NoSender)
            && final(pending)@ == old(pending)@,
{
    match outcome {
        SendOutcome::Sent => {
            let id = String::from_str(client_order_id.as_str());
            let _ = pending.insert(client_order_id, order);
            Ok(id)
        },
        SendOutcome::Failed => Err(SendError::SendFailed),
        SendOutcome::NoSender => Err(SendError::NoSender),
    }
}

/// After an execution report, a canceled or rejected order is no longer
/// pending; other reports leave the pending orders as they were.
pub fn settle_after_report(pending: &mut KeyedStore<LightspeedOrder>, action: &ExecutionAction)
    requires
        old(pending).wf(),
    ensures
        final(pending).wf(),
        match *action {
            ExecutionAction::Canceled { client_order_id } => final(pending)@ == old(pending)@.remove(client_order_id@),
            ExecutionAction::Rejected { client_order_id, .. } => final(pending)@ == old(pending)@.remove(client_order_id@),
            _ => final(pending)@ == old(pending)@,
        },
{
    match action {
        ExecutionAction::Canceled { client_order_id } => {
            let _ = pending.remove(client_order_id.as_str());
        },
        ExecutionAction::Rejected { client_order_id, .. } => {
            let _ = pending.remove(client_order_id.as_str());
        },
        _ => {},
    }
}

/// After an order status update, a rejected order is no longer pending;
/// other updates leave the pending orders as they were.
pub fn settle_after_update(pending: &mut KeyedStore<LightspeedOrder>, action: &OrderUpdateAction)
    requires
        old(pending).wf(),
    ensures
        final(pending).wf(),
        match *action {
            OrderUpdateAction::Rejected { client_order_id, .. } => final(pending)@ == old(pending)@.remove(client_order_id@),
            _ => final(pending)@ == old(pending)@,
        },
{
    match action {
        OrderUpdateAction::Rejected { client_order_id, .. } => {
            let _ = pending.remove(client_order_id.as_str());
        },
        _ => {},
    }
}

} // verus!
