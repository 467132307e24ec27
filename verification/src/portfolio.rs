//! The share bookkeeping of the rules engine's portfolio: which symbols are
//! held, how many shares, whether each position is open, and how many open
//! positions there are against the limit; and the symbols an evaluation cycle
//! looks at.
use vstd::prelude::*;
use crate::store::KeyedStore;
use crate::text::same_text;
use crate::types::PositionStatus;

verus! {

/// The share count and status of one position.
#[derive(Debug, Clone, Copy, PartialEq, Eq, Structural)]
pub struct HeldPosition {
    pub quantity: u64,
    pub status: PositionStatus,
}

/// Whether the position kept under `symbol` is open.
pub open spec fn is_open_in(m: Map<Seq<char>, HeldPosition>, symbol: Seq<char>) -> bool {
    m.contains_key(symbol) && m[symbol].status == PositionStatus::Open
}

/// The symbols whose position is open.
pub open spec fn open_symbols(m: Map<Seq<char>, HeldPosition>) -> Set<Seq<char>> {
    Set::new(|k: Seq<char>| is_open_in(m, k))
}

/// The position count agrees with the positions: it is the number of open
/// ones.
pub open spec fn count_agrees(m: Map<Seq<char>, HeldPosition>, count: int) -> bool {
    open_symbols(m).len() == count
}

/// The positions after buying `quantity` shares of `symbol`: a new open
/// position of that size replaces whatever was kept under the symbol.
pub open spec fn after_buy(m: Map<Seq<char>, HeldPosition>, symbol: Seq<char>, quantity: u64) -> Map<Seq<char>, HeldPosition> {
    m.insert(symbol, HeldPosition { quantity, status: PositionStatus::Open })
}

/// The positions after selling `quantity` shares of `symbol`: the shares come
/// off its position, which is closed once none are left; a symbol without a
/// position is left alone.
pub open spec fn after_sell(m: Map<Seq<char>, HeldPosition>, symbol: Seq<char>, quantity: u64) -> Map<Seq<char>, HeldPosition> {
    if m.contains_key(symbol) {
        let left = (m[symbol].quantity - quantity) as u64;
        m.insert(
            symbol,
            HeldPosition {
                quantity: left,
                status: if left == 0 { PositionStatus::Closed } else { m[symbol].status },
            },
        )
    } else {
        m
    }
}

/// Whether selling `quantity` shares of `symbol` empties its position.
pub open spec fn sell_empties(m: Map<Seq<char>, HeldPosition>, symbol: Seq<char>, quantity: u64) -> bool {
    m.contains_key(symbol) && m[symbol].quantity == quantity
}

/// The share bookkeeping of a portfolio.
pub struct PortfolioBook {
    positions: KeyedStore<HeldPosition>,
    max_positions: u32,
    position_count: u32,
}

impl PortfolioBook {
    pub closed spec fn wf(&self) -> bool {
        self.positions.wf()
    }

    /// The positions by symbol.
    pub closed spec fn positions(&self) -> Map<Seq<char>, HeldPosition> {
        self.positions@
    }

    /// The position count the book keeps.
    pub closed spec fn position_count(&self) -> u32 {
        self.position_count
    }

    /// The most positions that may be open at once.
    pub closed spec fn max_positions(&self) -> u32 {
        self.max_positions
    }

    /// A well-formed book holds finitely many positions.
    pub proof fn lemma_finite(&self)
        requires
            self.wf(),
        ensures
            self.positions().dom().finite(),
    {
        self.positions.lemma_keys_are_domain();
    }

    /// A book with no position.
    pub fn new(max_positions: u32) -> (r: Self)
        ensures
            r.wf(),
            r.positions() == Map::<Seq<char>, HeldPosition>::empty(),
            r.position_count() == 0,
            r.max_positions() == max_positions,
    {
        PortfolioBook { positions: KeyedStore::new(), max_positions, position_count: 0 }
    }

    /// The position count.
    pub fn current_position_count(&self) -> (r: u32)
        ensures
            r == self.position_count(),
    {
        self.position_count
    }

    /// Whether another position may be opened: fewer than the limit are
    /// counted.
    pub fn can_open_position(&self) -> (r: bool)
        ensures
            r == (self.position_count() < self.max_positions()),
    {
        self.position_count < self.max_positions
    }

    /// The shares of the open position in `symbol`, if there is one.
    pub fn open_quantity(&self, symbol: &str) -> (r: Option<u64>)
        requires
            self.wf(),
        ensures
            r is Some <==> is_open_in(self.positions(), symbol@),
            r matches Some(q) ==> q == self.positions()[symbol@].quantity,
    {
        match self.positions.get(symbol) {
            Some(p) => {
                if p.status == PositionStatus::Open {
                    Some(p.quantity)
                } else {
                    None
                }
            },
            None => None,
        }
    }

    /// The position kept under `symbol`.
    pub fn position(&self, symbol: &str) -> (r: Option<HeldPosition>)
        requires
            self.wf(),
        ensures
            r is Some <==> self.positions().contains_key(symbol@),
            r matches Some(p) ==> p == self.positions()[symbol@],
    {
        match self.positions.get(symbol) {
            Some(p) => Some(*p),
            None => None,
        }
    }

    /// The symbols that have a position, open or not, in the order they were
    /// first bought.
    pub fn symbols(&self) -> (r: Vec<String>)
        requires
            self.wf(),
        ensures
            r@.map_values(|s: String| s@).to_set() == self.positions().dom(),
            r@.map_values(|s: String| s@).no_duplicates(),
    {
        proof {
            self.positions.lemma_keys_are_domain();
        }
        self.positions.keys()
    }

    /// Records a buy of `quantity` shares of `symbol`: a new open position of
    /// that size, and one more counted position.
    pub fn record_buy(&mut self, symbol: String, quantity: u64)
        requires
            old(self).wf(),
            old(self).position_count() < u32::MAX,
        ensures
            final(self).wf(),
            final(self).positions() == after_buy(old(self).positions(), symbol@, quantity),
            final(self).position_count() == old(self).position_count() + 1,
            final(self).max_positions() == old(self).max_positions(),
    {
        self.positions.insert(symbol, HeldPosition { quantity, status: PositionStatus::Open });
        self.position_count = self.position_count + 1;
    }

    /// Records a sell of `quantity` shares of `symbol`: the shares come off
    /// its position, which is closed, and no longer counted, once none are
    /// left. A symbol without a position is left alone.
    pub fn record_sell(&mut self, symbol: &str, quantity: u64)
        requires
            old(self).wf(),
            old(self).positions().contains_key(symbol@) ==> quantity <= old(self).positions()[symbol@].quantity,
            sell_empties(old(self).positions(), symbol@, quantity) ==> old(self).position_count() > 0,
        ensures
            final(self).wf(),
            final(self).positions() == after_sell(old(self).positions(), symbol@, quantity),
            final(self).position_count() == if sell_empties(old(self).positions(), symbol@, quantity) {
                old(self).position_count() - 1
            } else {
                old(self).position_count() as int
            },
            final(self).max_positions() == old(self).max_positions(),
    {
        match self.positions.get(symbol) {
            Some(p) => {
                let left = p.quantity - quantity;
                let status = if left == 0 { PositionStatus::Closed } else { p.status };
                if left == 0 {
                    self.position_count = self.position_count - 1;
                }
                let key = String::from_str(symbol);
                self.positions.insert(key, HeldPosition { quantity: left, status });
            },
            None => {},
        }
    }
}

proof fn lemma_open_symbols_finite(m: Map<Seq<char>, HeldPosition>)
    requires
        m.dom().finite(),
    ensures
        open_symbols(m).finite(),
        open_symbols(m).subset_of(m.dom()),
{
    assert(open_symbols(m).subset_of(m.dom()));
    vstd::set_lib::lemma_set_subset_finite(m.dom(), open_symbols(m));
}

/// A buy keeps the position count in agreement with the open positions,
/// when the symbol had no open position: the new open position is counted
/// once.
pub proof fn law_buy_counts_new_position(m: Map<Seq<char>, HeldPosition>, count: int, symbol: Seq<char>, quantity: u64)
    requires
        m.dom().finite(),
        count_agrees(m, count),
        !is_open_in(m, symbol),
    ensures
        count_agrees(after_buy(m, symbol, quantity), count + 1),
        is_open_in(after_buy(m, symbol, quantity), symbol),
        after_buy(m, symbol, quantity)[symbol].quantity == quantity,
{
    let m2 = after_buy(m, symbol, quantity);
    lemma_open_symbols_finite(m);
    assert(open_symbols(m2) =~= open_symbols(m).insert(symbol));
    vstd::set::axiom_set_insert_len(open_symbols(m), symbol);
}

/// A sell of at most the held shares of an open position keeps the position
/// count in agreement with the open positions: the position stops being
/// counted exactly when no share is left.
pub proof fn law_sell_counts_closed_position(m: Map<Seq<char>, HeldPosition>, count: int, symbol: Seq<char>, quantity: u64)
    requires
        m.dom().finite(),
        count_agrees(m, count),
        is_open_in(m, symbol),
        quantity <= m[symbol].quantity,
    ensures
        count_agrees(after_sell(m, symbol, quantity), if sell_empties(m, symbol, quantity) { count - 1 } else { count }),
        is_open_in(after_sell(m, symbol, quantity), symbol) == !sell_empties(m, symbol, quantity),
        after_sell(m, symbol, quantity)[symbol].quantity == m[symbol].quantity - quantity,
{
    let m2 = after_sell(m, symbol, quantity);
    lemma_open_symbols_finite(m);
    if sell_empties(m, symbol, quantity) {
        assert(open_symbols(m2) =~= open_symbols(m).remove(symbol));
        vstd::set::axiom_set_remove_len(open_symbols(m), symbol);
    } else {
        assert(open_symbols(m2) =~= open_symbols(m));
    }
}

// ----- The symbols of an evaluation cycle -----

/// The texts of a list of strings, as a set.
pub open spec fn text_set(v: Seq<String>) -> Set<Seq<char>> {
    v.map_values(|s: String| s@).to_set()
}

fn push_new(out: &mut Vec<String>, s: &String)
    ensures
        text_set(final(out)@) == text_set(old(out)@).insert(s@),
        old(out)@.map_values(|x: String| x@).no_duplicates() ==> final(out)@.map_values(|x: String| x@).no_duplicates(),
{
    let mut i: usize = 0;
    while i < out.len()
        invariant
            0 <= i <= out@.len(),
            forall|j: int| 0 <= j < i ==> out@[j]@ != s@,
        decreases out@.len() - i,
    {
        if same_text(out[i].as_str(), s.as_str()) {
            assert(out@.map_values(|x: String| x@)[i as int] == s@);
            assert(text_set(out@) =~= text_set(out@).insert(s@));
            return;
        }
        i = i + 1;
    }
    let ghost before = out@;
    out.push(s.clone());
    assert(out@.map_values(|x: String| x@) =~= before.map_values(|x: String| x@).push(s@));
    proof {
        before.map_values(|x: String| x@).lemma_push_to_set_commute(s@);
    }
    assert(text_set(out@) =~= text_set(before).insert(s@));
    let ghost mv = before.map_values(|x: String| x@);
    assert(!mv.contains(s@)) by {
        if mv.contains(s@) {
            let j = choose|j: int| 0 <= j < mv.len() && #[trigger] mv[j] == s@;
            assert(before[j]@ == s@);
        }
    }
}

fn add_all(out: &mut Vec<String>, from: &Vec<String>)
    requires
        old(out)@.map_values(|x: String| x@).no_duplicates(),
    ensures
        text_set(final(out)@) == text_set(old(out)@).union(text_set(from@)),
        final(out)@.map_values(|x: String| x@).no_duplicates(),
{
    let mut i: usize = 0;
    while i < from.len()
        invariant
            0 <= i <= from@.len(),
            out@.map_values(|x: String| x@).no_duplicates(),
            text_set(out@) == text_set(old(out)@).union(text_set(from@.subrange(0, i as int))),
        decreases from@.len() - i,
    {
        let ghost before = out@;
        push_new(out, &from[i]);
        assert(from@.subrange(0, i + 1).map_values(|x: String| x@) =~= from@.subrange(0, i as int).map_values(
            |x: String| x@,
        ).push(from@[i as int]@));
        proof {
            from@.subrange(0, i as int).map_values(|x: String| x@).lemma_push_to_set_commute(from@[i as int]@);
        }
        assert(text_set(from@.subrange(0, i + 1)) =~= text_set(from@.subrange(0, i as int)).insert(from@[i as int]@));
        assert(text_set(out@) =~= text_set(old(out)@).union(text_set(from@.subrange(0, i + 1))));
        i = i + 1;
    }
    assert(from@.subrange(0, from@.len() as int) =~= from@);
}

/// The symbols an evaluation cycle looks at, each once: those with a
/// position, and those of the active watchlist, or, where the watchlist could
/// not be read (`None`), the configured fallback symbols.
pub fn evaluation_symbols(position_symbols: &Vec<String>, watchlist: &Option<Vec<String>>, fallback: &Vec<String>) -> (r: Vec<String>)
    ensures
        text_set(r@) == text_set(position_symbols@).union(
            match watchlist {
                Some(w) => text_set(w@),
                None => text_set(fallback@),
            },
        ),
        r@.map_values(|x: String| x@).no_duplicates(),
{
    let mut out: Vec<String> = Vec::new();
    assert(text_set(out@) =~= Set::<Seq<char>>::empty());
    add_all(&mut out, position_symbols);
    assert(text_set(position_symbols@) =~= Set::<Seq<char>>::empty().union(text_set(position_symbols@)));
    match watchlist {
        Some(w) => add_all(&mut out, w),
        None => add_all(&mut out, fallback),
    }
    out
}

} // verus!
