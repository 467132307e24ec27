use trading_system::broker::{
    broker_connected, broker_setup, check_short_allowed, invalid_paper_side_message, short_refused_message, keeps_position, net_position, paper_order_kind,
    paper_quantity, plan_fifo_sale, position_source, route_stock_order, BrokerSetup, LotSale, OrderRoute,
    PaperOrderKind, PositionSource, RouteError, SellPlanError,
};
use trading_system::config::TradingMode;
use trading_system::types::PositionSide;

#[test]
fn orders_route_by_mode() {
    assert_eq!(route_stock_order(TradingMode::Paper, "BUY", true, false), Ok(OrderRoute::PaperBySide));
    assert_eq!(route_stock_order(TradingMode::Paper, "BUY", false, true), Err(RouteError::PaperBrokerUnavailable));
    assert_eq!(route_stock_order(TradingMode::Live, "SELL", true, true), Ok(OrderRoute::Lightspeed));
    assert_eq!(route_stock_order(TradingMode::Live, "SELL", true, false), Err(RouteError::LightspeedUnavailable));
    assert_eq!(
        route_stock_order(TradingMode::Simulation, "buy", true, false),
        Ok(OrderRoute::SimulatedTrade(PositionSide::Long))
    );
    assert_eq!(
        route_stock_order(TradingMode::Simulation, "sell_short", true, false),
        Ok(OrderRoute::SimulatedTrade(PositionSide::Short))
    );
    assert_eq!(route_stock_order(TradingMode::Simulation, "HOLD", true, false), Err(RouteError::InvalidSide));
    assert_eq!(
        route_stock_order(TradingMode::Simulation, "BUY", false, false),
        Err(RouteError::SimulationBrokerUnavailable)
    );
}

#[test]
fn paper_quantities_wrap_like_a_cast() {
    assert_eq!(paper_quantity(100), 100);
    assert_eq!(paper_quantity(4_294_967_297), 1);
}

#[test]
fn broker_selection() {
    assert_eq!(position_source(TradingMode::Live, true, true), PositionSource::Lightspeed);
    assert_eq!(position_source(TradingMode::Live, true, false), PositionSource::Empty);
    assert_eq!(position_source(TradingMode::Paper, true, false), PositionSource::Paper);
    assert!(broker_connected(TradingMode::Live, false, Some(true)));
    assert!(!broker_connected(TradingMode::Live, true, None));
    assert!(broker_connected(TradingMode::Simulation, true, None));
    assert_eq!(broker_setup(TradingMode::Live, true, true), BrokerSetup::Lightspeed);
    assert_eq!(broker_setup(TradingMode::Live, true, false), BrokerSetup::NoBroker);
    assert_eq!(broker_setup(TradingMode::Paper, false, false), BrokerSetup::Paper);
}

#[test]
fn paper_sides() {
    assert_eq!(paper_order_kind("buy"), Some(PaperOrderKind::Buy));
    assert_eq!(paper_order_kind("SELL"), Some(PaperOrderKind::Sell));
    assert_eq!(paper_order_kind("Sell_Short"), Some(PaperOrderKind::SellShort));
    assert_eq!(paper_order_kind("COVER"), None);
    assert_eq!(check_short_allowed(Some(5)), Err(5));
    assert_eq!(check_short_allowed(Some(0)), Ok(()));
    assert_eq!(check_short_allowed(None), Ok(()));
}

#[test]
fn fifo_sales_take_the_oldest_shares_first() {
    assert_eq!(plan_fifo_sale(&vec![], 1), Err(SellPlanError::NoOpenPosition));
    assert_eq!(
        plan_fifo_sale(&vec![5, 5], 11),
        Err(SellPlanError::InsufficientShares { requested: 11, held: 10 })
    );
    assert_eq!(
        plan_fifo_sale(&vec![5, 4, 3], 7),
        Ok(vec![LotSale { sold: 5, remaining: 0 }, LotSale { sold: 2, remaining: 2 }])
    );
    assert_eq!(plan_fifo_sale(&vec![5, 4], 0), Ok(vec![]));
}

#[test]
fn net_positions_from_trades() {
    let trades = vec![
        ("BUY".to_string(), 10, 100),
        ("LONG".to_string(), 5, 300),
        ("SELL".to_string(), 12, 200),
        ("OTHER".to_string(), 99, 50),
    ];
    let n = net_position(&trades);
    assert_eq!(n.net_quantity, 3);
    assert_eq!(n.shares_bought, 15);
    assert_eq!(n.latest_opened_at, 300);
    assert!(keeps_position(&n));
    let flat = net_position(&vec![("BUY".to_string(), 2, 1), ("SELL".to_string(), 2, 2)]);
    assert!(!keeps_position(&flat));
}

#[test]
fn refusal_texts() {
    assert_eq!(RouteError::InvalidSide.message("HOLD"), "Invalid order side: HOLD");
    assert_eq!(RouteError::PaperBrokerUnavailable.message("BUY"), "Paper broker not available - check configuration");
    assert_eq!(
        RouteError::LightspeedUnavailable.message("BUY"),
        "LightSpeed broker not available - check configuration and connection"
    );
    assert_eq!(RouteError::SimulationBrokerUnavailable.message("BUY"), "Paper broker not available for simulation mode");
    assert_eq!(invalid_paper_side_message("cover"), "Invalid order side: cover. Valid sides: BUY, SELL, SELL_SHORT");
    assert_eq!(
        short_refused_message("AAPL", 25),
        "Cannot SELL_SHORT AAPL: Long position of 25 shares exists. Use SELL to reduce long position first."
    );
}
