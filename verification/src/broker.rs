//! Order routing between the paper and the live broker, and the share
//! bookkeeping of the paper broker.
use vstd::prelude::*;
use crate::config::TradingMode;
use crate::types::{PositionSide, PositionStatus};
use crate::text::{uppercase_of, to_uppercase_text, same_text, u64_to_decimal, decimal_of};
use vstd::string::*;

verus! {

/// Where a stock order goes.
#[derive(Debug, Clone, Copy, PartialEq, Eq, Structural)]
pub enum OrderRoute {
    /// The paper broker, which reads the side text itself (BUY, SELL,
    /// SELL_SHORT).
    PaperBySide,
    /// The LightSpeed broker.
    Lightspeed,
    /// The paper broker, as a simulated trade on the given side.
    SimulatedTrade(PositionSide),
}

/// Why a stock order cannot be routed.
#[derive(Debug, Clone, Copy, PartialEq, Eq, Structural)]
pub enum RouteError {
    /// Paper mode without a paper broker.
    PaperBrokerUnavailable,
    /// Live mode without a LightSpeed broker.
    LightspeedUnavailable,
    /// Simulation mode without a paper broker.
    SimulationBrokerUnavailable,
    /// Simulation mode with a side other than BUY, SELL or SELL_SHORT.
    InvalidSide,
}

impl RouteError {
    /// The error's text; `side` is the order's side as given.
    pub fn message(&self, side: &str) -> (r: String)
        ensures
            *self == RouteError::PaperBrokerUnavailable ==> r@ == "Paper broker not available - check configuration"@,
            *self == RouteError::LightspeedUnavailable ==> r@ == "LightSpeed broker not available - check configuration and connection"@,
            *self == RouteError::SimulationBrokerUnavailable ==> r@ == "Paper broker not available for simulation mode"@,
            *self == RouteError::InvalidSide ==> r@ == "Invalid order side: "@ + side@,
    {
        match self {
            RouteError::PaperBrokerUnavailable => String::from_str("Paper broker not available - check configuration"),
            RouteError::LightspeedUnavailable => String::from_str(
                "LightSpeed broker not available - check configuration and connection",
            ),
            RouteError::SimulationBrokerUnavailable => String::from_str("Paper broker not available for simulation mode"),
            RouteError::InvalidSide => {
                let mut m = String::from_str("Invalid order side: ");
                m.append(side);
                m
            },
        }
    }
}

/// The side a simulated trade takes for an order side (upper-cased): BUY is
/// long, SELL and SELL_SHORT are short.
pub open spec fn simulated_side_of(side: Seq<char>) -> Option<PositionSide> {
    let u = uppercase_of(side);
    if u == "BUY"@ {
        Some(PositionSide::Long)
    } else if u == "SELL"@ || u == "SELL_SHORT"@ {
        Some(PositionSide::Short)
    } else {
        None
    }
}

pub open spec fn route_of(mode: TradingMode, side: Seq<char>, paper_available: bool, lightspeed_available: bool) -> Result<OrderRoute, RouteError> {
    match mode {
        TradingMode::Paper => if paper_available {
            Ok(OrderRoute::PaperBySide)
        } else {
            Err(RouteError::PaperBrokerUnavailable)
        },
        TradingMode::Live => if lightspeed_available {
            Ok(OrderRoute::Lightspeed)
        } else {
            Err(RouteError::LightspeedUnavailable)
        },
        TradingMode::Simulation => if !paper_available {
            Err(RouteError::SimulationBrokerUnavailable)
        } else {
            match simulated_side_of(side) {
                Some(s) => Ok(OrderRoute::SimulatedTrade(s)),
                None => Err(RouteError::InvalidSide),
            }
        },
    }
}

/// Chooses the broker for a stock order by the trading mode: paper orders
/// go to the paper broker, live orders to LightSpeed, simulated orders to the
/// paper broker as a long or short trade.
pub fn route_stock_order(mode: TradingMode, side: &str, paper_available: bool, lightspeed_available: bool) -> (r: Result<OrderRoute, RouteError>)
    ensures
        r == route_of(mode, side@, paper_available, lightspeed_available),
{
    match mode {
        TradingMode::Paper => if paper_available {
            Ok(OrderRoute::PaperBySide)
        } else {
            Err(RouteError::PaperBrokerUnavailable)
        },
        TradingMode::Live => if lightspeed_available {
            Ok(OrderRoute::Lightspeed)
        } else {
            Err(RouteError::LightspeedUnavailable)
        },
        TradingMode::Simulation => {
            if !paper_available {
                return Err(RouteError::SimulationBrokerUnavailable);
            }
            let u = to_uppercase_text(side);
            if same_text(u.as_str(), "BUY") {
                Ok(OrderRoute::SimulatedTrade(PositionSide::Long))
            } else if same_text(u.as_str(), "SELL") || same_text(u.as_str(), "SELL_SHORT") {
                Ok(OrderRoute::SimulatedTrade(PositionSide::Short))
            } else {
                Err(RouteError::InvalidSide)
            }
        },
    }
}

/// The share count handed to the paper broker, which counts in 32 bits: the
/// low 32 bits of the order quantity.
pub fn paper_quantity(quantity: u64) -> (r: u32)
    ensures
        r as int == quantity as int % 4294967296,
{
    (quantity % 4294967296) as u32
}

/// Each trading mode keeps to its own broker: paper orders only reach the
/// paper broker, live orders only LightSpeed, and simulated orders only the
/// paper broker as simulated trades.
pub proof fn law_modes_keep_their_broker(side: Seq<char>, paper_available: bool, lightspeed_available: bool)
    ensures
        route_of(TradingMode::Paper, side, paper_available, lightspeed_available) matches Ok(r) ==> r == OrderRoute::PaperBySide,
        route_of(TradingMode::Live, side, paper_available, lightspeed_available) matches Ok(r) ==> r == OrderRoute::Lightspeed,
        route_of(TradingMode::Simulation, side, paper_available, lightspeed_available) matches Ok(r) ==> r is SimulatedTrade,
        route_of(TradingMode::Live, side, paper_available, lightspeed_available) is Ok <==> lightspeed_available,
        route_of(TradingMode::Paper, side, paper_available, lightspeed_available) is Ok <==> paper_available,
{
}

/// In simulation mode with a paper broker, an order is routed exactly when
/// its side, upper-cased, is BUY, SELL or SELL_SHORT: a buy is simulated as
/// a long trade, a sale or a short sale as a short one; any other side is
/// refused as invalid. Without a paper broker nothing is routed.
pub proof fn law_simulation_sides(side: Seq<char>, lightspeed_available: bool)
    ensures
        ({
            let u = uppercase_of(side);
            let r = route_of(TradingMode::Simulation, side, true, lightspeed_available);
            &&& r is Ok <==> (u == "BUY"@ || u == "SELL"@ || u == "SELL_SHORT"@)
            &&& u == "BUY"@ ==> r == Ok::<OrderRoute, RouteError>(OrderRoute::SimulatedTrade(PositionSide::Long))
            &&& u == "SELL"@ ==> r == Ok::<OrderRoute, RouteError>(OrderRoute::SimulatedTrade(PositionSide::Short))
            &&& u == "SELL_SHORT"@ ==> r == Ok::<OrderRoute, RouteError>(OrderRoute::SimulatedTrade(PositionSide::Short))
            &&& !(u == "BUY"@ || u == "SELL"@ || u == "SELL_SHORT"@) ==> r == Err::<OrderRoute, RouteError>(RouteError::InvalidSide)
        }),
        route_of(TradingMode::Simulation, side, false, lightspeed_available)
            == Err::<OrderRoute, RouteError>(RouteError::SimulationBrokerUnavailable),
{
    reveal_strlit("SELL");
    reveal_strlit("BUY");
    reveal_strlit("SELL_SHORT");
    assert("SELL"@ != "BUY"@) by {
        assert("SELL"@.len() != "BUY"@.len());
    }
    assert("SELL_SHORT"@ != "BUY"@) by {
        assert("SELL_SHORT"@.len() != "BUY"@.len());
    }
}

/// Where positions are read from.
#[derive(Debug, Clone, Copy, PartialEq, Eq, Structural)]
pub enum PositionSource {
    Paper,
    Lightspeed,
    /// No broker: no positions.
    Empty,
}

/// Paper and simulation modes read the paper broker, live mode LightSpeed;
/// without that broker there are no positions.
pub fn position_source(mode: TradingMode, paper_available: bool, lightspeed_available: bool) -> (r: PositionSource)
    ensures
        r == match mode {
            TradingMode::Live => if lightspeed_available { PositionSource::Lightspeed } else { PositionSource::Empty },
            _ => if paper_available { PositionSource::Paper } else { PositionSource::Empty },
        },
{
    match mode {
        TradingMode::Live => if lightspeed_available {
            PositionSource::Lightspeed
        } else {
            PositionSource::Empty
        },
        _ => if paper_available {
            PositionSource::Paper
        } else {
            PositionSource::Empty
        },
    }
}

/// Whether the broker counts as connected: paper trading is connected when
/// it is enabled; live trading asks LightSpeed (`None` when there is no
/// LightSpeed broker).
pub fn broker_connected(mode: TradingMode, paper_enabled: bool, lightspeed_connected: Option<bool>) -> (r: bool)
    ensures
        r == match mode {
            TradingMode::Live => lightspeed_connected == Some(true),
            _ => paper_enabled,
        },
{
    match mode {
        TradingMode::Live => match lightspeed_connected {
            Some(c) => c,
            None => false,
        },
        _ => paper_enabled,
    }
}

/// Which broker the trading engine sets up at start.
#[derive(Debug, Clone, Copy, PartialEq, Eq, Structural)]
pub enum BrokerSetup {
    Paper,
    Lightspeed,
    NoBroker,
}

/// Paper and simulation modes set up the paper broker; live mode sets up
/// LightSpeed when it is enabled and configured.
pub fn broker_setup(mode: TradingMode, lightspeed_enabled: bool, lightspeed_configured: bool) -> (r: BrokerSetup)
    ensures
        r == match mode {
            TradingMode::Live => if lightspeed_enabled && lightspeed_configured { BrokerSetup::Lightspeed } else { BrokerSetup::NoBroker },
            _ => BrokerSetup::Paper,
        },
{
    match mode {
        TradingMode::Live => if lightspeed_enabled && lightspeed_configured {
            BrokerSetup::Lightspeed
        } else {
            BrokerSetup::NoBroker
        },
        _ => BrokerSetup::Paper,
    }
}

/// What a paper order does, by its side.
#[derive(Debug, Clone, Copy, PartialEq, Eq, Structural)]
pub enum PaperOrderKind {
    /// Opens or adds to a long position.
    Buy,
    /// Sells shares of an existing long position.
    Sell,
    /// Opens a short position.
    SellShort,
}

pub open spec fn paper_order_kind_of(side: Seq<char>) -> Option<PaperOrderKind> {
    let u = uppercase_of(side);
    if u == "BUY"@ {
        Some(PaperOrderKind::Buy)
    } else if u == "SELL"@ {
        Some(PaperOrderKind::Sell)
    } else if u == "SELL_SHORT"@ {
        Some(PaperOrderKind::SellShort)
    } else {
        None
    }
}

/// Reads a paper order's side (upper-cased): BUY, SELL or SELL_SHORT; any
/// other side is refused.
pub fn paper_order_kind(side: &str) -> (r: Option<PaperOrderKind>)
    ensures
        r == paper_order_kind_of(side@),
{
    let u = to_uppercase_text(side);
    if same_text(u.as_str(), "BUY") {
        Some(PaperOrderKind::Buy)
    } else if same_text(u.as_str(), "SELL") {
        Some(PaperOrderKind::Sell)
    } else if same_text(u.as_str(), "SELL_SHORT") {
        Some(PaperOrderKind::SellShort)
    } else {
        None
    }
}

/// A short sale is refused while a long position of some shares is held;
/// the error carries the shares held.
pub fn check_short_allowed(long_quantity: Option<u64>) -> (r: Result<(), u64>)
    ensures
        match long_quantity {
            Some(q) => if q > 0 { r == Err::<(), u64>(q) } else { r == Ok::<(), u64>(()) },
            None => r == Ok::<(), u64>(()),
        },
{
    match long_quantity {
        Some(q) => if q > 0 {
            Err(q)
        } else {
            Ok(())
        },
        None => Ok(()),
    }
}

/// The refusal of a paper order whose side is none of BUY, SELL and
/// SELL_SHORT.
pub fn invalid_paper_side_message(side: &str) -> (r: String)
    ensures
        r@ == "Invalid order side: "@ + side@ + ". Valid sides: BUY, SELL, SELL_SHORT"@,
{
    let mut m = String::from_str("Invalid order side: ");
    m.append(side);
    m.append(". Valid sides: BUY, SELL, SELL_SHORT");
    m
}

/// The refusal of a short sale while `held` shares of `symbol` are held long.
pub fn short_refused_message(symbol: &str, held: u64) -> (r: String)
    ensures
        r@ == "Cannot SELL_SHORT "@ + symbol@ + ": Long position of "@ + decimal_of(held as nat)
            + " shares exists. Use SELL to reduce long position first."@,
{
    let mut m = String::from_str("Cannot SELL_SHORT ");
    m.append(symbol);
    m.append(": Long position of ");
    let q = u64_to_decimal(held);
    m.append(q.as_str());
    m.append(" shares exists. Use SELL to reduce long position first.");
    m
}

/// The sum of a list of share counts.
pub open spec fn total_of(lots: Seq<u64>) -> nat
    decreases lots.len(),
{
    if lots.len() == 0 {
        0
    } else {
        total_of(lots.drop_last()) + lots.last() as nat
    }
}

/// Part of a sale taken from one position: the shares sold from it and the
/// shares that remain in it.
#[derive(Debug, Clone, Copy, PartialEq, Eq, Structural)]
pub struct LotSale {
    pub sold: u64,
    pub remaining: u64,
}

/// Why a sale cannot be made.
#[derive(Debug, Clone, Copy, PartialEq, Eq, Structural)]
pub enum SellPlanError {
    /// There is no open position in the symbol.
    NoOpenPosition,
    /// More shares are asked for than are held.
    InsufficientShares { requested: u64, held: u64 },
}

/// The sale of `remaining` shares against the positions from `i` on, oldest
/// first: each position gives up as many shares as it holds until the sale
/// is complete; positions after that are untouched and not listed.
pub open spec fn fifo_plan(lots: Seq<u64>, remaining: nat, i: int) -> Seq<LotSale>
    decreases lots.len() - i,
{
    if remaining == 0 || i < 0 || i >= lots.len() {
        Seq::empty()
    } else {
        let take = if remaining < lots[i] { remaining } else { lots[i] as nat };
        seq![LotSale { sold: take as u64, remaining: (lots[i] - take) as u64 }] + fifo_plan(lots, (remaining - take) as nat, i + 1)
    }
}

proof fn lemma_total_prefix(lots: Seq<u64>, i: int)
    requires
        0 <= i < lots.len(),
    ensures
        total_of(lots.subrange(0, i + 1)) == total_of(lots.subrange(0, i)) + lots[i],
{
    assert(lots.subrange(0, i + 1).drop_last() =~= lots.subrange(0, i));
}

/// Plans the sale of `quantity` shares against the open positions of a
/// symbol (their share counts, oldest first): refused when there is no
/// position or when fewer shares are held than asked for.
pub fn plan_fifo_sale(lots: &Vec<u64>, quantity: u64) -> (r: Result<Vec<LotSale>, SellPlanError>)
    requires
        total_of(lots@) <= u64::MAX,
    ensures
        lots@.len() == 0 ==> r == Err::<Vec<LotSale>, SellPlanError>(SellPlanError::NoOpenPosition),
        lots@.len() > 0 && quantity > total_of(lots@) ==> r == Err::<Vec<LotSale>, SellPlanError>(
            SellPlanError::InsufficientShares { requested: quantity, held: total_of(lots@) as u64 },
        ),
        lots@.len() > 0 && quantity <= total_of(lots@) ==> (r matches Ok(plan) && plan@ == fifo_plan(lots@, quantity as nat, 0)),
{
    if lots.len() == 0 {
        return Err(SellPlanError::NoOpenPosition);
    }
    let mut total: u64 = 0;
    let mut i: usize = 0;
    while i < lots.len()
        invariant
            0 <= i <= lots.len(),
            total_of(lots@) <= u64::MAX,
            total as nat == total_of(lots@.subrange(0, i as int)),
        decreases lots.len() - i,
    {
        proof {
            lemma_total_prefix(lots@, i as int);
            lemma_total_prefix_bound(lots@, i + 1);
        }
        total = total + lots[i];
        i = i + 1;
    }
    assert(lots@.subrange(0, lots@.len() as int) =~= lots@);
    if quantity > total {
        return Err(SellPlanError::InsufficientShares { requested: quantity, held: total });
    }
    let mut plan: Vec<LotSale> = Vec::new();
    let mut remaining: u64 = quantity;
    let mut j: usize = 0;
    while j < lots.len() && remaining > 0
        invariant
            0 <= j <= lots.len(),
            plan@ + fifo_plan(lots@, remaining as nat, j as int) == fifo_plan(lots@, quantity as nat, 0),
        decreases lots.len() - j,
    {
        let lot = lots[j];
        let take = if remaining < lot { remaining } else { lot };
        let sale = LotSale { sold: take, remaining: lot - take };
        proof {
            assert(fifo_plan(lots@, remaining as nat, j as int) == seq![sale] + fifo_plan(lots@, (remaining - take) as nat, j + 1));
            assert(plan@.push(sale) + fifo_plan(lots@, (remaining - take) as nat, j + 1) =~= plan@ + fifo_plan(lots@, remaining as nat, j as int));
        }
        plan.push(sale);
        remaining = remaining - take;
        j = j + 1;
    }
    assert(fifo_plan(lots@, remaining as nat, j as int) =~= Seq::<LotSale>::empty());
    assert(plan@ + Seq::<LotSale>::empty() =~= plan@);
    Ok(plan)
}

proof fn lemma_total_prefix_bound(lots: Seq<u64>, i: int)
    requires
        0 <= i <= lots.len(),
    ensures
        total_of(lots.subrange(0, i)) <= total_of(lots),
    decreases lots.len() - i,
{
    if i < lots.len() {
        lemma_total_prefix_bound(lots, i + 1);
        lemma_total_prefix(lots, i);
    } else {
        assert(lots.subrange(0, i) =~= lots);
    }
}

/// The sum of the shares a plan sells.
pub open spec fn sold_of(plan: Seq<LotSale>) -> nat
    decreases plan.len(),
{
    if plan.len() == 0 {
        0
    } else {
        plan[0].sold as nat + sold_of(plan.drop_first())
    }
}

/// The shares the positions from `i` on hold.
pub open spec fn total_from(lots: Seq<u64>, i: int) -> nat
    decreases lots.len() - i,
{
    if i < 0 || i >= lots.len() {
        0
    } else {
        lots[i] as nat + total_from(lots, i + 1)
    }
}

proof fn lemma_fifo_sells_exactly(lots: Seq<u64>, remaining: nat, i: int)
    requires
        0 <= i <= lots.len(),
        remaining <= total_from(lots, i),
    ensures
        sold_of(fifo_plan(lots, remaining, i)) == remaining,
        forall|k: int| 0 <= k < fifo_plan(lots, remaining, i).len() ==> {
            let s = #[trigger] fifo_plan(lots, remaining, i)[k];
            &&& s.sold + s.remaining == lots[i + k]
        },
    decreases lots.len() - i,
{
    if remaining == 0 || i >= lots.len() {
    } else {
        let take = if remaining < lots[i] { remaining } else { lots[i] as nat };
        lemma_fifo_sells_exactly(lots, (remaining - take) as nat, i + 1);
        let rest = fifo_plan(lots, (remaining - take) as nat, i + 1);
        let head = LotSale { sold: take as u64, remaining: (lots[i] - take) as u64 };
        assert(fifo_plan(lots, remaining, i) == seq![head] + rest);
        assert((seq![head] + rest).drop_first() =~= rest);
        assert forall|k: int| 0 <= k < fifo_plan(lots, remaining, i).len() implies {
            let s = #[trigger] fifo_plan(lots, remaining, i)[k];
            &&& s.sold + s.remaining == lots[i + k]
        } by {
            if k > 0 {
                assert(fifo_plan(lots, remaining, i)[k] == rest[k - 1]);
            }
        }
    }
}

proof fn lemma_total_from_all(lots: Seq<u64>, i: int)
    requires
        0 <= i <= lots.len(),
    ensures
        total_of(lots.subrange(0, i)) + total_from(lots, i) == total_of(lots),
    decreases lots.len() - i,
{
    if i < lots.len() {
        lemma_total_from_all(lots, i + 1);
        lemma_total_prefix(lots, i);
    } else {
        assert(lots.subrange(0, i) =~= lots);
    }
}

/// A sale that goes through sells exactly the shares asked for, and each
/// position it touches keeps what it held less what it gave up.
pub proof fn law_fifo_sale_sells_exactly(lots: Seq<u64>, quantity: nat)
    requires
        quantity <= total_of(lots),
    ensures
        sold_of(fifo_plan(lots, quantity, 0)) == quantity,
        forall|k: int| 0 <= k < fifo_plan(lots, quantity, 0).len() ==>
            (#[trigger] fifo_plan(lots, quantity, 0)[k]).sold + fifo_plan(lots, quantity, 0)[k].remaining == lots[k],
{
    lemma_total_from_all(lots, 0);
    assert(lots.subrange(0, 0) =~= Seq::<u64>::empty());
    lemma_fifo_sells_exactly(lots, quantity, 0);
}

/// The shares a symbol's trade history adds up to: buys (BUY or LONG) add,
/// sells (SELL) subtract; other sides leave the count alone.
pub struct NetPosition {
    /// Shares bought less shares sold.
    pub net_quantity: i64,
    /// Shares bought.
    pub shares_bought: i64,
    /// The latest time a trade was opened (seconds), 0 when there is none later.
    pub latest_opened_at: i64,
}

pub open spec fn is_buy_side(side: Seq<char>) -> bool {
    side == "BUY"@ || side == "LONG"@
}

pub open spec fn net_of(trades: Seq<(String, i32, i64)>) -> (int, int, int)
    decreases trades.len(),
{
    if trades.len() == 0 {
        (0, 0, 0)
    } else {
        let prev = net_of(trades.drop_last());
        let t = trades.last();
        let latest = if t.2 > prev.2 { t.2 as int } else { prev.2 };
        if is_buy_side(t.0@) {
            (prev.0 + t.1, prev.1 + t.1, latest)
        } else if t.0@ == "SELL"@ {
            (prev.0 - t.1, prev.1, latest)
        } else {
            (prev.0, prev.1, latest)
        }
    }
}

proof fn lemma_net_bounds(trades: Seq<(String, i32, i64)>)
    ensures
        -(trades.len() * 2147483648) <= net_of(trades).0 <= trades.len() * 2147483648,
        -(trades.len() * 2147483648) <= net_of(trades).1 <= trades.len() * 2147483648,
        i64::MIN <= net_of(trades).2 <= i64::MAX,
        net_of(trades).2 >= 0,
    decreases trades.len(),
{
    if trades.len() > 0 {
        lemma_net_bounds(trades.drop_last());
    }
}

/// Consolidating a trade history piece by piece gives the same position as
/// consolidating it whole: the net and bought shares add up, and the latest
/// opening time is the later of the two.
pub proof fn law_net_position_adds_up(a: Seq<(String, i32, i64)>, b: Seq<(String, i32, i64)>)
    ensures
        net_of(a + b).0 == net_of(a).0 + net_of(b).0,
        net_of(a + b).1 == net_of(a).1 + net_of(b).1,
        net_of(a + b).2 == if net_of(a).2 >= net_of(b).2 { net_of(a).2 } else { net_of(b).2 },
    decreases b.len(),
{
    if b.len() == 0 {
        assert(a + b =~= a);
        lemma_net_bounds(a);
    } else {
        law_net_position_adds_up(a, b.drop_last());
        assert((a + b).drop_last() =~= a + b.drop_last());
        assert((a + b).last() == b.last());
        lemma_net_bounds(a);
        lemma_net_bounds(b.drop_last());
    }
}

/// Adds up a symbol's trades (side, shares, opening time).
pub fn net_position(trades: &Vec<(String, i32, i64)>) -> (r: NetPosition)
    requires
        trades@.len() <= 4_294_967_295,
    ensures
        (r.net_quantity as int, r.shares_bought as int, r.latest_opened_at as int) == net_of(trades@),
{
    let mut net: i64 = 0;
    let mut bought: i64 = 0;
    let mut latest: i64 = 0;
    let mut i: usize = 0;
    while i < trades.len()
        invariant
            0 <= i <= trades.len(),
            trades@.len() <= 4_294_967_295,
            (net as int, bought as int, latest as int) == net_of(trades@.subrange(0, i as int)),
        decreases trades.len() - i,
    {
        let ghost pre = trades@.subrange(0, i + 1);
        proof {
            assert(pre.drop_last() =~= trades@.subrange(0, i as int));
            lemma_net_bounds(trades@.subrange(0, i as int));
            assert(i * 2147483648 <= 4_294_967_295 * 2147483648) by (nonlinear_arith)
                requires
                    i <= 4_294_967_295,
            ;
        }
        let q = trades[i].1 as i64;
        if trades[i].2 > latest {
            latest = trades[i].2;
        }
        if same_text(trades[i].0.as_str(), "BUY") || same_text(trades[i].0.as_str(), "LONG") {
            net = net + q;
            bought = bought + q;
        } else if same_text(trades[i].0.as_str(), "SELL") {
            net = net - q;
        }
        i = i + 1;
    }
    assert(trades@.subrange(0, trades@.len() as int) =~= trades@);
    NetPosition { net_quantity: net, shares_bought: bought, latest_opened_at: latest }
}

/// A consolidated position is kept only when more shares were bought than
/// sold.
pub fn keeps_position(net: &NetPosition) -> (r: bool)
    ensures
        r == (net.net_quantity > 0),
{
    net.net_quantity > 0
}

} // verus!
