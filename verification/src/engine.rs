//! The trading engine's main loop bookkeeping: which of the broker's test
//! symbols is fetched, and when.
use vstd::prelude::*;

verus! {

/// How many loop ticks pass between two test-symbol fetches.
pub const FETCH_EVERY_TICKS: u32 = 600;

/// The broker's test symbols, fetched in turn.
pub open spec fn test_symbol_at(i: int) -> Seq<char> {
    if i % 4 == 0 {
        "GOOGL"@
    } else if i % 4 == 1 {
        "AMZN"@
    } else if i % 4 == 2 {
        "TSLA"@
    } else {
        "MSFT"@
    }
}

/// The loop's tick counter and the next test symbol's turn.
#[derive(Debug, Clone, Copy, PartialEq, Eq, Structural)]
pub struct TestSymbolRotation {
    pub ticks: u32,
    pub turn: u64,
}

impl TestSymbolRotation {
    /// No tick yet; the first fetch is GOOGL's.
    pub fn new() -> (r: Self)
        ensures
            r.ticks == 0 && r.turn == 0,
    {
        TestSymbolRotation { ticks: 0, turn: 0 }
    }

    /// Counts one tick of the main loop (wrapping after `u32::MAX` ticks);
    /// every 600th tick names the next test symbol to fetch, in the order
    /// GOOGL, AMZN, TSLA, MSFT.
    pub fn tick(&mut self) -> (r: Option<&'static str>)
        requires
            old(self).turn < u64::MAX,
        ensures
            final(self).ticks == (old(self).ticks + 1) % 0x1_0000_0000,
            final(self).ticks % FETCH_EVERY_TICKS == 0 ==> final(self).turn == old(self).turn + 1,
            final(self).ticks % FETCH_EVERY_TICKS == 0 ==> (r matches Some(s) && s@ == test_symbol_at(old(self).turn as int)),
            final(self).ticks % FETCH_EVERY_TICKS != 0 ==> final(self).turn == old(self).turn && r is None,
    {
        self.ticks = self.ticks.wrapping_add(1);
        if self.ticks % FETCH_EVERY_TICKS == 0 {
            let i = self.turn % 4;
            self.turn = self.turn + 1;
            proof {
                reveal_strlit("GOOGL");
                reveal_strlit("AMZN");
                reveal_strlit("TSLA");
                reveal_strlit("MSFT");
            }
            if i == 0 {
                Some("GOOGL")
            } else if i == 1 {
                Some("AMZN")
            } else if i == 2 {
                Some("TSLA")
            } else {
                Some("MSFT")
            }
        } else {
            None
        }
    }
}

} // verus!
