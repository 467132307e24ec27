//! The streaming market-data connection: where it connects, the JSON
//! messages it sends, the symbols it is subscribed to, the bounded buffer of
//! received messages, and what each event of a connection leads to.
use vstd::prelude::*;
use vstd::string::*;
use crate::portfolio::text_set;
use crate::json::{json_quote, json_quoted};
use crate::text::same_text;
use crate::config::PolygonWebSocketConfig;

verus! {

/// The state of the streaming connection.
#[derive(Debug, Clone, PartialEq, Eq)]
pub enum ConnectionStatus {
    Disconnected,
    Connecting,
    Connected,
    Authenticated,
    Error(String),
}

/// A request to the connection task.
#[derive(Debug, Clone)]
pub enum WebSocketCommand {
    Subscribe(Vec<String>),
    Unsubscribe(Vec<String>),
    Reconnect,
    Shutdown,
}

/// The feed a connection uses: the delayed feed (15 minutes behind) or the
/// real-time one.
pub fn websocket_url(use_delayed_data: bool) -> (r: &'static str)
    ensures
        use_delayed_data ==> r@ == "wss://delayed.polygon.io/stocks"@,
        !use_delayed_data ==> r@ == "wss://socket.polygon.io/stocks"@,
{
    proof {
        reveal_strlit("wss://delayed.polygon.io/stocks");
        reveal_strlit("wss://socket.polygon.io/stocks");
    }
    if use_delayed_data {
        "wss://delayed.polygon.io/stocks"
    } else {
        "wss://socket.polygon.io/stocks"
    }
}

/// The message `{"action":A,"params":P}` with both values written as JSON
/// strings.
pub open spec fn action_message(action: Seq<char>, params: Seq<char>) -> Seq<char> {
    "{\"action\":"@ + json_quoted(action) + ",\"params\":"@ + json_quoted(params) + "}"@
}

/// Writes the message `{"action":A,"params":P}`.
pub fn action_message_text(action: &str, params: &str) -> (r: String)
    ensures
        r@ == action_message(action@, params@),
{
    let mut out = String::from_str("{\"action\":");
    let a = json_quote(action);
    out.append(a.as_str());
    out.append(",\"params\":");
    let p = json_quote(params);
    out.append(p.as_str());
    out.append("}");
    out
}

/// The authentication message, carrying the API key.
pub fn auth_message(api_key: &str) -> (r: String)
    ensures
        r@ == action_message("auth"@, api_key@),
{
    action_message_text("auth", api_key)
}

/// The channel names for the per-minute aggregates of symbols: `AM.` and the
/// symbol, joined by commas.
pub open spec fn minute_channels(symbols: Seq<Seq<char>>) -> Seq<char>
    decreases symbols.len(),
{
    if symbols.len() == 0 {
        Seq::empty()
    } else if symbols.len() == 1 {
        "AM."@ + symbols[0]
    } else {
        minute_channels(symbols.drop_last()) + ","@ + "AM."@ + symbols.last()
    }
}

/// The pieces of a text between its commas, as `split(',')` gives them.
pub open spec fn comma_parts(t: Seq<char>) -> Seq<Seq<char>>
    decreases t.len(),
{
    if t.len() == 0 {
        seq![Seq::<char>::empty()]
    } else {
        let p = comma_parts(t.drop_last());
        if t.last() == ',' {
            p.push(Seq::<char>::empty())
        } else {
            p.update(p.len() - 1, p.last().push(t.last()))
        }
    }
}

proof fn lemma_comma_parts_nonempty(t: Seq<char>)
    ensures
        comma_parts(t).len() >= 1,
    decreases t.len(),
{
    if t.len() > 0 {
        lemma_comma_parts_nonempty(t.drop_last());
    }
}

/// Appending a text without commas extends the last piece.
proof fn lemma_comma_parts_extend(a: Seq<char>, b: Seq<char>)
    requires
        !b.contains(','),
    ensures
        comma_parts(a + b).len() == comma_parts(a).len(),
        comma_parts(a + b) == comma_parts(a).update(comma_parts(a).len() - 1, comma_parts(a).last() + b),
    decreases b.len(),
{
    lemma_comma_parts_nonempty(a);
    let p = comma_parts(a);
    if b.len() == 0 {
        assert(a + b =~= a);
        assert(p.last() + b =~= p.last());
        assert(p.update(p.len() - 1, p.last()) =~= p);
    } else {
        let b0 = b.drop_last();
        assert(!b0.contains(',')) by {
            if b0.contains(',') {
                let i = choose|i: int| 0 <= i < b0.len() && b0[i] == ',';
                assert(b[i] == ',');
            }
        }
        lemma_comma_parts_extend(a, b0);
        assert((a + b).drop_last() =~= a + b0);
        assert((a + b).last() == b.last());
        assert(b.last() != ',') by {
            assert(b[b.len() - 1] == b.last());
        }
        let q = comma_parts(a + b0);
        assert(q.last() == p.last() + b0);
        assert(q.last().push(b.last()) =~= p.last() + b);
        assert(comma_parts(a + b) =~= p.update(p.len() - 1, p.last() + b));
    }
}

/// The channel list of symbols that hold no comma splits at its commas into
/// one piece per symbol, the i-th being `AM.` and the i-th symbol.
pub proof fn law_channels_split_per_symbol(symbols: Seq<Seq<char>>)
    requires
        symbols.len() >= 1,
        forall|i: int| 0 <= i < symbols.len() ==> !(#[trigger] symbols[i]).contains(','),
    ensures
        comma_parts(minute_channels(symbols)) == symbols.map_values(|s: Seq<char>| "AM."@ + s),
        comma_parts(minute_channels(symbols)).len() == symbols.len(),
    decreases symbols.len(),
{
    reveal_strlit("AM.");
    reveal_strlit(",");
    let last = symbols.last();
    let piece = "AM."@ + last;
    assert(!piece.contains(',')) by {
        if piece.contains(',') {
            let i = choose|i: int| 0 <= i < piece.len() && piece[i] == ',';
            if i >= 3 {
                assert(last[i - 3] == ',');
                assert(symbols[symbols.len() - 1] == last);
            }
        }
    }
    if symbols.len() == 1 {
        let e = Seq::<char>::empty();
        lemma_comma_parts_extend(e, piece);
        assert(e + piece =~= piece);
        assert(comma_parts(e) == seq![e]);
        assert(minute_channels(symbols) == piece);
        assert(comma_parts(piece) =~= seq![piece]);
        assert(symbols.map_values(|s: Seq<char>| "AM."@ + s) =~= seq![piece]);
    } else {
        let init = symbols.drop_last();
        assert forall|i: int| 0 <= i < init.len() implies !(#[trigger] init[i]).contains(',') by {
            assert(init[i] == symbols[i]);
        }
        law_channels_split_per_symbol(init);
        let m = minute_channels(init);
        let mc = m + ","@;
        assert(mc.drop_last() =~= m);
        assert(mc.last() == ',');
        lemma_comma_parts_nonempty(m);
        assert(comma_parts(mc) == comma_parts(m).push(Seq::<char>::empty()));
        lemma_comma_parts_extend(mc, piece);
        assert(minute_channels(symbols) =~= mc + piece);
        let p = comma_parts(m);
        assert(comma_parts(mc).update(comma_parts(mc).len() - 1, comma_parts(mc).last() + piece) =~= p.push(piece));
        assert(symbols.map_values(|s: Seq<char>| "AM."@ + s) =~= init.map_values(|s: Seq<char>| "AM."@ + s).push(piece));
    }
}

/// The channel list of symbols joined together is the lists of the two
/// parts joined by a comma.
pub proof fn law_channels_concatenate(a: Seq<Seq<char>>, b: Seq<Seq<char>>)
    requires
        a.len() >= 1,
        b.len() >= 1,
    ensures
        minute_channels(a + b) == minute_channels(a) + ","@ + minute_channels(b),
    decreases b.len(),
{
    if b.len() == 1 {
        assert((a + b).drop_last() =~= a);
        assert((a + b).last() == b[0]);
        assert(minute_channels(b) == "AM."@ + b[0]);
        assert(minute_channels(a + b) =~= minute_channels(a) + ","@ + minute_channels(b));
    } else {
        let b0 = b.drop_last();
        law_channels_concatenate(a, b0);
        assert((a + b).drop_last() =~= a + b0);
        assert((a + b).last() == b.last());
        assert(minute_channels(a + b) =~= minute_channels(a) + ","@ + minute_channels(b));
    }
}

/// The per-minute aggregate channels of symbols (see `minute_channels`).
pub fn minute_channel_list(symbols: &Vec<String>) -> (r: String)
    ensures
        r@ == minute_channels(symbols@.map_values(|s: String| s@)),
{
    let ghost names = symbols@.map_values(|s: String| s@);
    let mut out = String::new();
    let mut i: usize = 0;
    while i < symbols.len()
        invariant
            0 <= i <= symbols@.len(),
            names == symbols@.map_values(|s: String| s@),
            out@ == minute_channels(names.subrange(0, i as int)),
        decreases symbols@.len() - i,
    {
        let ghost pre = names.subrange(0, i + 1);
        assert(pre.drop_last() =~= names.subrange(0, i as int));
        assert(pre.last() == symbols@[i as int]@);
        if i > 0 {
            out.append(",");
        }
        out.append("AM.");
        out.append(symbols[i].as_str());
        proof {
            if i == 0 {
                assert(pre.len() == 1);
                assert(pre[0] == symbols@[0]@);
            }
        }
        assert(out@ =~= minute_channels(pre));
        i = i + 1;
    }
    assert(names.subrange(0, symbols@.len() as int) =~= names);
    out
}

/// Whether a subscription message subscribes or unsubscribes.
#[derive(Debug, Clone, Copy, PartialEq, Eq, Structural)]
pub enum SubscriptionAction {
    Subscribe,
    Unsubscribe,
}

/// The action's name in a message.
pub open spec fn action_name(a: SubscriptionAction) -> Seq<char> {
    match a {
        SubscriptionAction::Subscribe => "subscribe"@,
        SubscriptionAction::Unsubscribe => "unsubscribe"@,
    }
}

/// The message that subscribes to, or unsubscribes from, the per-minute
/// aggregates of symbols.
pub fn subscription_message(action: SubscriptionAction, symbols: &Vec<String>) -> (r: String)
    ensures
        r@ == action_message(action_name(action), minute_channels(symbols@.map_values(|s: String| s@))),
{
    let params = minute_channel_list(symbols);
    proof {
        reveal_strlit("subscribe");
        reveal_strlit("unsubscribe");
    }
    match action {
        SubscriptionAction::Subscribe => action_message_text("subscribe", params.as_str()),
        SubscriptionAction::Unsubscribe => action_message_text("unsubscribe", params.as_str()),
    }
}

/// The messages sent once a connection is open: the authentication, then a
/// subscription to the default symbols when there are any.
pub fn opening_messages(api_key: &str, default_subscriptions: &Vec<String>) -> (r: Vec<String>)
    ensures
        default_subscriptions@.len() == 0 ==> r@.len() == 1,
        default_subscriptions@.len() > 0 ==> r@.len() == 2
            && r@[1]@ == action_message("subscribe"@, minute_channels(default_subscriptions@.map_values(|s: String| s@))),
        r@[0]@ == action_message("auth"@, api_key@),
{
    let mut out: Vec<String> = Vec::new();
    out.push(auth_message(api_key));
    if default_subscriptions.len() > 0 {
        out.push(subscription_message(SubscriptionAction::Subscribe, default_subscriptions));
    }
    out
}

// ----- Subscriptions -----

/// The symbols the connection is subscribed to, each once.
pub struct SubscriptionSet {
    symbols: Vec<String>,
}

impl View for SubscriptionSet {
    type V = Set<Seq<char>>;

    closed spec fn view(&self) -> Set<Seq<char>> {
        text_set(self.symbols@)
    }
}

impl SubscriptionSet {
    pub closed spec fn wf(&self) -> bool {
        self.symbols@.map_values(|s: String| s@).no_duplicates()
    }

    /// No subscription.
    pub fn new() -> (r: Self)
        ensures
            r.wf(),
            r@ == Set::<Seq<char>>::empty(),
    {
        let r = SubscriptionSet { symbols: Vec::new() };
        assert(r@ =~= Set::<Seq<char>>::empty());
        r
    }

    /// How many symbols are subscribed.
    pub fn len(&self) -> (r: usize)
        requires
            self.wf(),
        ensures
            r == self@.len(),
    {
        proof {
            self.symbols@.map_values(|s: String| s@).unique_seq_to_set();
        }
        self.symbols.len()
    }

    /// Whether `symbol` is subscribed.
    pub fn contains(&self, symbol: &str) -> (r: bool)
        ensures
            r == self@.contains(symbol@),
    {
        let ghost names = self.symbols@.map_values(|s: String| s@);
        let mut i: usize = 0;
        while i < self.symbols.len()
            invariant
                0 <= i <= self.symbols@.len(),
                names == self.symbols@.map_values(|s: String| s@),
                forall|j: int| 0 <= j < i ==> names[j] != symbol@,
            decreases self.symbols@.len() - i,
        {
            if same_text(self.symbols[i].as_str(), symbol) {
                assert(names[i as int] == symbol@);
                return true;
            }
            i = i + 1;
        }
        proof {
            if names.contains(symbol@) {
                let j = choose|j: int| 0 <= j < names.len() && #[trigger] names[j] == symbol@;
            }
        }
        false
    }

    /// The subscribed symbols.
    pub fn symbols(&self) -> (r: Vec<String>)
        requires
            self.wf(),
        ensures
            text_set(r@) == self@,
            r@.map_values(|s: String| s@).no_duplicates(),
    {
        let mut r: Vec<String> = Vec::new();
        let mut i: usize = 0;
        while i < self.symbols.len()
            invariant
                0 <= i <= self.symbols@.len(),
                r@.map_values(|s: String| s@) == self.symbols@.map_values(|s: String| s@).subrange(0, i as int),
            decreases self.symbols@.len() - i,
        {
            let k = self.symbols[i].clone();
            let ghost before = r@;
            r.push(k);
            assert(r@.map_values(|s: String| s@) =~= before.map_values(|s: String| s@).push(k@));
            assert(r@.map_values(|s: String| s@) =~= self.symbols@.map_values(|s: String| s@).subrange(0, i + 1));
            i = i + 1;
        }
        assert(self.symbols@.map_values(|s: String| s@).subrange(0, self.symbols@.len() as int) =~= self.symbols@.map_values(
            |s: String| s@,
        ));
        r
    }

    /// Adds one symbol.
    pub fn insert(&mut self, symbol: &String)
        requires
            old(self).wf(),
        ensures
            final(self).wf(),
            final(self)@ == old(self)@.insert(symbol@),
    {
        if self.contains(symbol.as_str()) {
            assert(self@ =~= self@.insert(symbol@));
            return;
        }
        let ghost before = self.symbols@;
        self.symbols.push(symbol.clone());
        proof {
            let mv = before.map_values(|s: String| s@);
            assert(self.symbols@.map_values(|s: String| s@) =~= mv.push(symbol@));
            mv.lemma_push_to_set_commute(symbol@);
            assert(!mv.contains(symbol@));
        }
    }

    /// Removes one symbol.
    pub fn remove(&mut self, symbol: &String)
        requires
            old(self).wf(),
        ensures
            final(self).wf(),
            final(self)@ == old(self)@.remove(symbol@),
    {
        let ghost names = self.symbols@.map_values(|s: String| s@);
        let ghost start = self@;
        let mut i: usize = 0;
        while i < self.symbols.len()
            invariant
                0 <= i <= self.symbols@.len(),
                names == self.symbols@.map_values(|s: String| s@),
                names.no_duplicates(),
                start == names.to_set(),
                start == old(self)@,
                forall|j: int| 0 <= j < i ==> names[j] != symbol@,
            decreases self.symbols@.len() - i,
        {
            if same_text(self.symbols[i].as_str(), symbol.as_str()) {
                assert(names[i as int] == symbol@);
                let ghost before = self.symbols@;
                self.symbols.remove(i);
                proof {
                    let after = self.symbols@.map_values(|s: String| s@);
                    assert(after =~= names.remove(i as int));
                    assert forall|a: int, b: int| 0 <= a < b < after.len() implies after[a] != after[b] by {
                        let a2 = if a < i { a } else { a + 1 };
                        let b2 = if b < i { b } else { b + 1 };
                        assert(after[a] == names[a2]);
                        assert(after[b] == names[b2]);
                    }
                    assert forall|k: Seq<char>| self@.contains(k) <==> start.remove(symbol@).contains(k) by {
                        if after.contains(k) {
                            let j = choose|j: int| 0 <= j < after.len() && #[trigger] after[j] == k;
                            let j2 = if j < i { j } else { j + 1 };
                            assert(names[j2] == k);
                            assert(k != symbol@);
                        }
                        if k != symbol@ && names.contains(k) {
                            let j = choose|j: int| 0 <= j < names.len() && #[trigger] names[j] == k;
                            assert(j != i);
                            let j2 = if j < i { j } else { j - 1 };
                            assert(after[j2] == k);
                        }
                    }
                    assert(self@ =~= start.remove(symbol@));
                }
                assert(self@ == old(self)@.remove(symbol@));
                return;
            }
            i = i + 1;
        }
        proof {
            assert forall|k: Seq<char>| self@.contains(k) <==> start.remove(symbol@).contains(k) by {
                if k == symbol@ && names.contains(k) {
                    let j = choose|j: int| 0 <= j < names.len() && #[trigger] names[j] == k;
                }
            }
            assert(self@ =~= start.remove(symbol@));
        }
    }

    /// Applies a subscription message that was sent: its symbols are added,
    /// or taken away.
    pub fn apply(&mut self, action: SubscriptionAction, symbols: &Vec<String>)
        requires
            old(self).wf(),
        ensures
            final(self).wf(),
            action == SubscriptionAction::Subscribe ==> final(self)@ == old(self)@.union(text_set(symbols@)),
            action == SubscriptionAction::Unsubscribe ==> final(self)@ == old(self)@.difference(text_set(symbols@)),
    {
        let ghost start = self@;
        let mut i: usize = 0;
        while i < symbols.len()
            invariant
                0 <= i <= symbols@.len(),
                self.wf(),
                action == SubscriptionAction::Subscribe ==> self@ == start.union(text_set(symbols@.subrange(0, i as int))),
                action == SubscriptionAction::Unsubscribe ==> self@ == start.difference(text_set(symbols@.subrange(0, i as int))),
            decreases symbols@.len() - i,
        {
            proof {
                symbols@.subrange(0, i as int).map_values(|x: String| x@).lemma_push_to_set_commute(symbols@[i as int]@);
                assert(symbols@.subrange(0, i + 1).map_values(|x: String| x@) =~= symbols@.subrange(0, i as int).map_values(
                    |x: String| x@,
                ).push(symbols@[i as int]@));
            }
            match action {
                SubscriptionAction::Subscribe => {
                    self.insert(&symbols[i]);
                    assert(self@ =~= start.union(text_set(symbols@.subrange(0, i + 1))));
                },
                SubscriptionAction::Unsubscribe => {
                    self.remove(&symbols[i]);
                    assert(self@ =~= start.difference(text_set(symbols@.subrange(0, i + 1))));
                },
            }
            i = i + 1;
        }
        assert(symbols@.subrange(0, symbols@.len() as int) =~= symbols@);
    }
}

/// Unsubscribing from symbols just subscribed to leaves none of them
/// subscribed and every other subscription as it was.
pub proof fn law_unsubscribe_undoes_subscribe(before: Set<Seq<char>>, symbols: Set<Seq<char>>)
    ensures
        before.union(symbols).difference(symbols) == before.difference(symbols),
        before.disjoint(symbols) ==> before.union(symbols).difference(symbols) == before,
{
    assert(before.union(symbols).difference(symbols) =~= before.difference(symbols));
    if before.disjoint(symbols) {
        assert(before.difference(symbols) =~= before);
    }
}

/// Subscribing to the same symbols twice is the same as subscribing once.
pub proof fn law_subscribe_idempotent(before: Set<Seq<char>>, symbols: Set<Seq<char>>)
    ensures
        before.union(symbols).union(symbols) == before.union(symbols),
{
    assert(before.union(symbols).union(symbols) =~= before.union(symbols));
}

// ----- Received messages -----

/// The last `n` items of `s`, or all of them where there are fewer.
pub open spec fn keep_last<T>(s: Seq<T>, n: nat) -> Seq<T> {
    if s.len() > n {
        s.subrange(s.len() - n, s.len() as int)
    } else {
        s
    }
}

/// The most recent received messages, oldest first, at most `capacity` of
/// them.
pub struct MessageBuffer<T> {
    items: Vec<T>,
    capacity: usize,
}

impl<T> View for MessageBuffer<T> {
    type V = Seq<T>;

    closed spec fn view(&self) -> Seq<T> {
        self.items@
    }
}

impl<T> MessageBuffer<T> {
    /// The most messages kept.
    pub closed spec fn capacity(&self) -> nat {
        self.capacity as nat
    }

    /// An empty buffer that keeps at most `capacity` messages.
    pub fn new(capacity: usize) -> (r: Self)
        ensures
            r@ == Seq::<T>::empty(),
            r.capacity() == capacity,
    {
        MessageBuffer { items: Vec::new(), capacity }
    }

    /// How many messages are kept.
    pub fn len(&self) -> (r: usize)
        ensures
            r == self@.len(),
    {
        self.items.len()
    }

    /// Keeps a newly received message, dropping the oldest ones while more
    /// than the capacity are kept.
    pub fn push(&mut self, message: T)
        ensures
            final(self)@ == keep_last(old(self)@.push(message), old(self).capacity()),
            final(self).capacity() == old(self).capacity(),
    {
        let ghost all = self.items@.push(message);
        self.items.push(message);
        let ghost mut dropped: int = 0;
        while self.items.len() > self.capacity
            invariant
                0 <= dropped <= all.len(),
                self.items@ == all.subrange(dropped, all.len() as int),
                self.capacity == old(self).capacity,
                self.capacity < all.len() ==> dropped <= all.len() - self.capacity,
                self.capacity >= all.len() ==> dropped == 0,
            decreases self.items@.len(),
        {
            self.items.remove(0);
            proof {
                dropped = dropped + 1;
            }
            assert(self.items@ =~= all.subrange(dropped, all.len() as int));
        }
        assert(self@ =~= keep_last(all, self.capacity as nat));
    }

    /// Up to `limit` of the kept messages, newest first.
    pub fn recent(&self, limit: usize) -> (r: Vec<&T>)
        ensures
            r@.len() == if limit < self@.len() { limit as nat } else { self@.len() },
            forall|i: int| 0 <= i < r@.len() ==> *r@[i] == self@[self@.len() - 1 - i],
    {
        let n = self.items.len();
        let mut r: Vec<&T> = Vec::new();
        let mut i: usize = 0;
        while i < n && i < limit
            invariant
                n == self@.len(),
                0 <= i <= n,
                i <= limit,
                r@.len() == i,
                forall|j: int| 0 <= j < i ==> *r@[j] == self@[n - 1 - j],
            decreases n - i,
        {
            r.push(&self.items[n - 1 - i]);
            i = i + 1;
        }
        r
    }
}

/// Once a buffer holds no more than its capacity, it never holds more, and a
/// buffer that keeps anything keeps the newest message last.
pub proof fn law_buffer_keeps_newest<T>(kept: Seq<T>, capacity: nat, message: T)
    requires
        kept.len() <= capacity,
    ensures
        keep_last(kept.push(message), capacity).len() <= capacity,
        capacity > 0 ==> keep_last(kept.push(message), capacity).last() == message,
        capacity > kept.len() ==> keep_last(kept.push(message), capacity) == kept.push(message),
{
}

// ----- What a connection's events lead to -----

/// A stage of a connection attempt.
#[derive(Debug, Clone, PartialEq, Eq)]
pub enum ConnectionPhase {
    /// An attempt begins.
    Attempting,
    /// The socket is open.
    Opened,
    /// The authentication message was sent.
    AuthSent,
    /// The attempt failed with this error.
    Failed(String),
}

/// The status a connection shows at each stage of an attempt.
pub fn status_for(phase: ConnectionPhase) -> (r: ConnectionStatus)
    ensures
        phase == ConnectionPhase::Attempting ==> r == ConnectionStatus::Connecting,
        phase == ConnectionPhase::Opened ==> r == ConnectionStatus::Connected,
        phase == ConnectionPhase::AuthSent ==> r == ConnectionStatus::Authenticated,
        phase matches ConnectionPhase::Failed(e) ==> r == ConnectionStatus::Error(e),
{
    match phase {
        ConnectionPhase::Attempting => ConnectionStatus::Connecting,
        ConnectionPhase::Opened => ConnectionStatus::Connected,
        ConnectionPhase::AuthSent => ConnectionStatus::Authenticated,
        ConnectionPhase::Failed(e) => ConnectionStatus::Error(e),
    }
}

/// What happened on an open connection.
#[derive(Debug, Clone)]
pub enum StreamEvent {
    /// A text frame arrived.
    TextFrame,
    /// The server closed the connection.
    CloseFrame,
    /// Reading failed.
    ReadError,
    /// The stream of frames ended.
    StreamEnded,
    /// Another kind of frame arrived.
    OtherFrame,
    /// A command arrived.
    Command(WebSocketCommand),
    /// Nothing can send commands any more.
    CommandChannelClosed,
}

/// What the connection task does next.
#[derive(Debug, Clone)]
pub enum StreamStep {
    /// Keep reading.
    Continue,
    /// Keep the text frame's message in the buffer if it reads as a market
    /// data message, then keep reading.
    BufferMessage,
    /// Send this text; once it was sent, apply the change to the
    /// subscriptions. A failed send is logged and reading goes on.
    Send { text: String, action: SubscriptionAction, symbols: Vec<String> },
    /// Leave this connection; the task connects again after its interval.
    EndConnection,
    /// Shut the connection down; this run of the task ends normally, and it
    /// connects again after its interval.
    Shutdown,
}

/// What an event on an open connection leads to.
pub fn stream_step(event: StreamEvent) -> (r: StreamStep)
    ensures
        event is TextFrame ==> r is BufferMessage,
        event is OtherFrame ==> r is Continue,
        (event is CloseFrame || event is ReadError || event is StreamEnded || event is CommandChannelClosed) ==> r is EndConnection,
        event matches StreamEvent::Command(WebSocketCommand::Subscribe(syms)) ==> (r matches StreamStep::Send { text, action, symbols }
            && action == SubscriptionAction::Subscribe && symbols@ == syms@
            && text@ == action_message("subscribe"@, minute_channels(syms@.map_values(|s: String| s@)))),
        event matches StreamEvent::Command(WebSocketCommand::Unsubscribe(syms)) ==> (r matches StreamStep::Send { text, action, symbols }
            && action == SubscriptionAction::Unsubscribe && symbols@ == syms@
            && text@ == action_message("unsubscribe"@, minute_channels(syms@.map_values(|s: String| s@)))),
        event matches StreamEvent::Command(WebSocketCommand::Reconnect) ==> r is EndConnection,
        event matches StreamEvent::Command(WebSocketCommand::Shutdown) ==> r is Shutdown,
{
    match event {
        StreamEvent::TextFrame => StreamStep::BufferMessage,
        StreamEvent::OtherFrame => StreamStep::Continue,
        StreamEvent::CloseFrame => StreamStep::EndConnection,
        StreamEvent::ReadError => StreamStep::EndConnection,
        StreamEvent::StreamEnded => StreamStep::EndConnection,
        StreamEvent::CommandChannelClosed => StreamStep::EndConnection,
        StreamEvent::Command(cmd) => match cmd {
            WebSocketCommand::Subscribe(symbols) => {
                let text = subscription_message(SubscriptionAction::Subscribe, &symbols);
                StreamStep::Send { text, action: SubscriptionAction::Subscribe, symbols }
            },
            WebSocketCommand::Unsubscribe(symbols) => {
                let text = subscription_message(SubscriptionAction::Unsubscribe, &symbols);
                StreamStep::Send { text, action: SubscriptionAction::Unsubscribe, symbols }
            },
            WebSocketCommand::Reconnect => StreamStep::EndConnection,
            WebSocketCommand::Shutdown => StreamStep::Shutdown,
        },
    }
}

// ----- Setting up a connection -----

/// Why a streaming connection cannot be set up.
#[derive(Debug, Clone, Copy, PartialEq, Eq, Structural)]
pub enum StreamSetupError {
    /// The configuration has no streaming settings.
    ConfigurationMissing,
}

impl StreamSetupError {
    /// The error's text.
    pub fn message(&self) -> (r: &'static str)
        ensures
            *self == StreamSetupError::ConfigurationMissing ==> r@ == "WebSocket configuration missing"@,
    {
        proof {
            reveal_strlit("WebSocket configuration missing");
        }
        match self {
            StreamSetupError::ConfigurationMissing => "WebSocket configuration missing",
        }
    }
}

/// A streaming connection as set up, before it starts.
pub struct StreamSetup<T> {
    pub url: &'static str,
    pub api_key: String,
    pub status: ConnectionStatus,
    pub subscriptions: SubscriptionSet,
    pub buffer: MessageBuffer<T>,
}

impl<T> StreamSetup<T> {
    /// Sets up a streaming connection: refused without streaming settings;
    /// otherwise it uses the delayed or the real-time feed as configured, carries
    /// the API key, is disconnected, subscribed to nothing, and buffers at most
    /// the configured number of messages.
    pub fn new(ws_config: &Option<PolygonWebSocketConfig>, api_key: &Option<String>, use_delayed_data: bool) -> (r: Result<StreamSetup<T>, StreamSetupError>)
        requires
            ws_config is Some ==> api_key is Some,
        ensures
            ws_config is None ==> (r matches Err(e) && e == StreamSetupError::ConfigurationMissing),
            ws_config matches Some(c) ==> (r matches Ok(s) && {
                &&& use_delayed_data ==> s.url@ == "wss://delayed.polygon.io/stocks"@
                &&& !use_delayed_data ==> s.url@ == "wss://socket.polygon.io/stocks"@
                &&& s.api_key@ == api_key->Some_0@
                &&& s.status == ConnectionStatus::Disconnected
                &&& s.subscriptions.wf()
                &&& s.subscriptions@ == Set::<Seq<char>>::empty()
                &&& s.buffer@ == Seq::<T>::empty()
                &&& s.buffer.capacity() == c.buffer_size
            }),
    {
        let c = match ws_config {
            Some(c) => c,
            None => return Err(StreamSetupError::ConfigurationMissing),
        };
        let key = match api_key {
            Some(k) => k.clone(),
            None => return Err(StreamSetupError::ConfigurationMissing),
        };
        Ok(StreamSetup {
            url: websocket_url(use_delayed_data),
            api_key: key,
            status: ConnectionStatus::Disconnected,
            subscriptions: SubscriptionSet::new(),
            buffer: MessageBuffer::new(c.buffer_size),
        })
    }

}

} // verus!
