use trading_system::portfolio::{evaluation_symbols, PortfolioBook};
use trading_system::types::PositionStatus;

#[test]
fn buy_then_sell_all_closes_the_position() {
    let mut book = PortfolioBook::new(2);
    assert!(book.can_open_position());
    book.record_buy("AAPL".to_string(), 10);
    assert_eq!(book.open_quantity("AAPL"), Some(10));
    assert_eq!(book.current_position_count(), 1);
    book.record_sell("AAPL", 4);
    assert_eq!(book.open_quantity("AAPL"), Some(6));
    assert_eq!(book.current_position_count(), 1);
    book.record_sell("AAPL", 6);
    assert_eq!(book.open_quantity("AAPL"), None);
    let p = book.position("AAPL").unwrap();
    assert_eq!(p.quantity, 0);
    assert_eq!(p.status, PositionStatus::Closed);
    assert_eq!(book.current_position_count(), 0);
}

#[test]
fn position_limit_is_respected() {
    let mut book = PortfolioBook::new(2);
    book.record_buy("AAPL".to_string(), 1);
    book.record_buy("MSFT".to_string(), 1);
    assert!(!book.can_open_position());
    assert_eq!(book.symbols(), vec!["AAPL".to_string(), "MSFT".to_string()]);
}

#[test]
fn selling_an_unknown_symbol_changes_nothing() {
    let mut book = PortfolioBook::new(1);
    book.record_sell("NVDA", 5);
    assert_eq!(book.current_position_count(), 0);
    assert!(book.position("NVDA").is_none());
}

#[test]
fn buying_a_closed_symbol_reopens_it() {
    let mut book = PortfolioBook::new(3);
    book.record_buy("AMD".to_string(), 2);
    book.record_sell("AMD", 2);
    book.record_buy("AMD".to_string(), 5);
    assert_eq!(book.open_quantity("AMD"), Some(5));
    assert_eq!(book.current_position_count(), 1);
}

#[test]
fn evaluation_symbols_union_without_repeats() {
    let positions = vec!["AAPL".to_string(), "MSFT".to_string()];
    let watch = Some(vec!["MSFT".to_string(), "TSLA".to_string(), "TSLA".to_string()]);
    let fallback = vec!["SPY".to_string()];
    let mut r = evaluation_symbols(&positions, &watch, &fallback);
    r.sort();
    assert_eq!(r, vec!["AAPL".to_string(), "MSFT".to_string(), "TSLA".to_string()]);

    let mut r = evaluation_symbols(&positions, &None, &fallback);
    r.sort();
    assert_eq!(r, vec!["AAPL".to_string(), "MSFT".to_string(), "SPY".to_string()]);

    let r = evaluation_symbols(&Vec::new(), &None, &Vec::new());
    assert!(r.is_empty());
}
