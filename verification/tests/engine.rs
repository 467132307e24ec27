use trading_system::engine::TestSymbolRotation;

#[test]
fn test_symbols_rotate_every_six_hundred_ticks() {
    let mut r = TestSymbolRotation::new();
    let mut fetched = Vec::new();
    for _ in 0..2400 {
        if let Some(s) = r.tick() {
            fetched.push(s);
        }
    }
    assert_eq!(fetched, vec!["GOOGL", "AMZN", "TSLA", "MSFT"]);
    for _ in 0..600 {
        if let Some(s) = r.tick() {
            fetched.push(s);
        }
    }
    assert_eq!(fetched.last(), Some(&"GOOGL"));
    assert_eq!(r.ticks, 3000);
    let mut near_end = TestSymbolRotation { ticks: u32::MAX, turn: 7 };
    assert_eq!(near_end.tick(), Some("MSFT"));
    assert_eq!(near_end.ticks, 0);
}
