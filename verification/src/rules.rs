//! Decisions of the rules engine: how the outcome of a rule's entry
//! conditions is tallied, when the market counts as open for a rule, what a
//! triggered rule does, how its risk is graded and whether that risk lets it
//! go ahead, and the engine's timing and bookkeeping.
use vstd::prelude::*;
use crate::clock::{chrono_representable, utc_calendar, UtcInstant, SECONDS_PER_DAY};
use crate::store::{CacheCounts, KeyedStore};
use crate::config::{FallbackChoice, FallbackChoiceView, RulesEngineConfig};
use crate::portfolio::{HeldPosition, PortfolioBook};
use crate::types::{RiskLevel, SellReason};
use vstd::string::*;

verus! {

// ----- Entry conditions -----

/// The entry conditions a rule can set, in the order they are checked.
#[derive(Debug, Clone, Copy, PartialEq, Eq, Structural)]
pub enum ConditionKind {
    MinPrice,
    MaxPrice,
    /// The day's price change reaches a minimum percentage.
    PriceChangeMin,
    MinVolume,
    VolumeRatio,
    RsiMin,
    RsiMax,
    MacdPositive,
    MacdAboveSignal,
    PriceAboveEma9,
    /// The price is (or is not) above the 20-day simple moving average.
    PriceAboveSma20,
    Ema9Increasing,
    /// The 9-day EMA is (or is not) above the 21-day EMA.
    Ema9AboveEma21,
    /// The news sentiment is (or is not) positive.
    PositiveSentiment,
    /// The news sentiment score reaches a minimum.
    NewsSentimentMin,
    MarketHours,
    /// The day is not an earnings day.
    NotEarningsDay,
}

/// How much a met condition adds to a rule's confidence, in hundredths.
pub open spec fn weight_of(kind: ConditionKind) -> nat {
    match kind {
        ConditionKind::MinPrice => 10,
        ConditionKind::MaxPrice => 10,
        ConditionKind::PriceChangeMin => 10,
        ConditionKind::MinVolume => 15,
        ConditionKind::VolumeRatio => 20,
        ConditionKind::RsiMin => 15,
        ConditionKind::RsiMax => 15,
        ConditionKind::MacdPositive => 20,
        ConditionKind::MacdAboveSignal => 25,
        ConditionKind::PriceAboveEma9 => 20,
        ConditionKind::PriceAboveSma20 => 15,
        ConditionKind::Ema9Increasing => 15,
        ConditionKind::Ema9AboveEma21 => 20,
        ConditionKind::PositiveSentiment => 10,
        ConditionKind::NewsSentimentMin => 10,
        ConditionKind::MarketHours => 5,
        ConditionKind::NotEarningsDay => 5,
    }
}

/// The confidence weight of a condition, in hundredths.
pub fn condition_weight(kind: ConditionKind) -> (r: u32)
    ensures
        r == weight_of(kind),
{
    match kind {
        ConditionKind::MinPrice => 10,
        ConditionKind::MaxPrice => 10,
        ConditionKind::PriceChangeMin => 10,
        ConditionKind::MinVolume => 15,
        ConditionKind::VolumeRatio => 20,
        ConditionKind::RsiMin => 15,
        ConditionKind::RsiMax => 15,
        ConditionKind::MacdPositive => 20,
        ConditionKind::MacdAboveSignal => 25,
        ConditionKind::PriceAboveEma9 => 20,
        ConditionKind::PriceAboveSma20 => 15,
        ConditionKind::Ema9Increasing => 15,
        ConditionKind::Ema9AboveEma21 => 20,
        ConditionKind::PositiveSentiment => 10,
        ConditionKind::NewsSentimentMin => 10,
        ConditionKind::MarketHours => 5,
        ConditionKind::NotEarningsDay => 5,
    }
}

/// One checked condition: whether it held. A condition whose indicator is
/// not available did not hold.
#[derive(Debug, Clone, Copy, PartialEq, Eq, Structural)]
pub struct ConditionOutcome {
    pub kind: ConditionKind,
    pub met: bool,
}

/// The tally of a rule's checked conditions.
#[derive(Debug, Clone, PartialEq, Eq)]
pub struct RuleTally {
    /// Every checked condition held, and at least one was checked.
    pub passed: bool,
    /// How many conditions were checked.
    pub total_conditions: u32,
    /// The summed weight of the conditions that held, in hundredths.
    pub score_hundredths: u32,
    /// The conditions that held, in order.
    pub met: Vec<ConditionKind>,
    /// The conditions that did not hold, in order.
    pub failed: Vec<ConditionKind>,
}

/// The summed weight of the conditions that held.
pub open spec fn score_of(outcomes: Seq<ConditionOutcome>) -> nat
    decreases outcomes.len(),
{
    if outcomes.len() == 0 {
        0
    } else {
        score_of(outcomes.drop_last()) + if outcomes.last().met { weight_of(outcomes.last().kind) } else { 0 }
    }
}

/// The kinds of the outcomes that held (`met == true`) or did not.
pub open spec fn kinds_where(outcomes: Seq<ConditionOutcome>, met: bool) -> Seq<ConditionKind>
    decreases outcomes.len(),
{
    if outcomes.len() == 0 {
        Seq::empty()
    } else if outcomes.last().met == met {
        kinds_where(outcomes.drop_last(), met).push(outcomes.last().kind)
    } else {
        kinds_where(outcomes.drop_last(), met)
    }
}

proof fn lemma_score_bound(outcomes: Seq<ConditionOutcome>)
    ensures
        score_of(outcomes) <= 25 * outcomes.len(),
    decreases outcomes.len(),
{
    if outcomes.len() > 0 {
        lemma_score_bound(outcomes.drop_last());
    }
}

proof fn lemma_kinds_len(outcomes: Seq<ConditionOutcome>)
    ensures
        kinds_where(outcomes, true).len() + kinds_where(outcomes, false).len() == outcomes.len(),
    decreases outcomes.len(),
{
    if outcomes.len() > 0 {
        lemma_kinds_len(outcomes.drop_last());
    }
}

/// Tallies the checked conditions of a rule: it passes when none failed and
/// at least one held; its score is the summed weight of those that held.
pub fn tally_conditions(outcomes: &Vec<ConditionOutcome>) -> (r: RuleTally)
    requires
        outcomes@.len() <= 1000,
    ensures
        r.total_conditions == outcomes@.len(),
        r.score_hundredths == score_of(outcomes@),
        r.met@ == kinds_where(outcomes@, true),
        r.failed@ == kinds_where(outcomes@, false),
        r.passed == (kinds_where(outcomes@, false).len() == 0 && kinds_where(outcomes@, true).len() > 0),
{
    let mut met: Vec<ConditionKind> = Vec::new();
    let mut failed: Vec<ConditionKind> = Vec::new();
    let mut score: u32 = 0;
    let mut i: usize = 0;
    while i < outcomes.len()
        invariant
            0 <= i <= outcomes@.len(),
            outcomes@.len() <= 1000,
            score == score_of(outcomes@.subrange(0, i as int)),
            met@ == kinds_where(outcomes@.subrange(0, i as int), true),
            failed@ == kinds_where(outcomes@.subrange(0, i as int), false),
        decreases outcomes@.len() - i,
    {
        let o = outcomes[i];
        let ghost pre = outcomes@.subrange(0, i + 1);
        assert(pre.drop_last() =~= outcomes@.subrange(0, i as int));
        assert(pre.last() == o);
        proof {
            lemma_score_bound(outcomes@.subrange(0, i as int));
        }
        if o.met {
            score = score + condition_weight(o.kind);
            met.push(o.kind);
        } else {
            failed.push(o.kind);
        }
        i = i + 1;
    }
    assert(outcomes@.subrange(0, outcomes@.len() as int) =~= outcomes@);
    let passed = failed.len() == 0 && met.len() > 0;
    RuleTally {
        passed,
        total_conditions: i as u32,
        score_hundredths: score,
        met,
        failed,
    }
}

/// For each condition a rule can set: `None` when the rule does not set
/// it, else whether it held for the symbol (a condition whose reading is
/// not available did not hold).
#[derive(Debug, Clone, Copy, PartialEq, Eq, Structural)]
pub struct ConditionChecks {
    pub min_price: Option<bool>,
    pub max_price: Option<bool>,
    pub price_change_min: Option<bool>,
    pub min_volume: Option<bool>,
    pub volume_ratio: Option<bool>,
    pub rsi_min: Option<bool>,
    pub rsi_max: Option<bool>,
    pub macd_positive: Option<bool>,
    pub macd_above_signal: Option<bool>,
    pub price_above_ema9: Option<bool>,
    pub price_above_sma20: Option<bool>,
    pub ema9_increasing: Option<bool>,
    pub ema9_above_ema21: Option<bool>,
    pub positive_sentiment: Option<bool>,
    pub news_sentiment_min: Option<bool>,
    pub market_hours: Option<bool>,
    pub not_earnings_day: Option<bool>,
}

/// The outcome of one condition, when the rule sets it.
pub open spec fn outcome_if(kind: ConditionKind, check: Option<bool>) -> Seq<ConditionOutcome> {
    match check {
        Some(met) => seq![ConditionOutcome { kind, met }],
        None => Seq::empty(),
    }
}

/// The outcomes of every condition the rule sets, in the order of
/// `ConditionKind`.
pub open spec fn checked_outcomes_of(c: ConditionChecks) -> Seq<ConditionOutcome> {
    outcome_if(ConditionKind::MinPrice, c.min_price)
        + outcome_if(ConditionKind::MaxPrice, c.max_price)
        + outcome_if(ConditionKind::PriceChangeMin, c.price_change_min)
        + outcome_if(ConditionKind::MinVolume, c.min_volume)
        + outcome_if(ConditionKind::VolumeRatio, c.volume_ratio)
        + outcome_if(ConditionKind::RsiMin, c.rsi_min)
        + outcome_if(ConditionKind::RsiMax, c.rsi_max)
        + outcome_if(ConditionKind::MacdPositive, c.macd_positive)
        + outcome_if(ConditionKind::MacdAboveSignal, c.macd_above_signal)
        + outcome_if(ConditionKind::PriceAboveEma9, c.price_above_ema9)
        + outcome_if(ConditionKind::PriceAboveSma20, c.price_above_sma20)
        + outcome_if(ConditionKind::Ema9Increasing, c.ema9_increasing)
        + outcome_if(ConditionKind::Ema9AboveEma21, c.ema9_above_ema21)
        + outcome_if(ConditionKind::PositiveSentiment, c.positive_sentiment)
        + outcome_if(ConditionKind::NewsSentimentMin, c.news_sentiment_min)
        + outcome_if(ConditionKind::MarketHours, c.market_hours)
        + outcome_if(ConditionKind::NotEarningsDay, c.not_earnings_day)
}

fn push_outcome(v: &mut Vec<ConditionOutcome>, kind: ConditionKind, check: Option<bool>)
    ensures
        final(v)@ == old(v)@ + outcome_if(kind, check),
{
    match check {
        Some(met) => {
            v.push(ConditionOutcome { kind, met });
            assert(final(v)@ =~= old(v)@ + outcome_if(kind, check));
        },
        None => {
            assert(final(v)@ =~= old(v)@ + outcome_if(kind, check));
        },
    }
}

/// Every condition the rule sets, with whether it held, in order.
pub fn checked_outcomes(c: &ConditionChecks) -> (r: Vec<ConditionOutcome>)
    ensures
        r@ == checked_outcomes_of(*c),
        r@.len() <= 17,
{
    let mut v: Vec<ConditionOutcome> = Vec::new();
    push_outcome(&mut v, ConditionKind::MinPrice, c.min_price);
    push_outcome(&mut v, ConditionKind::MaxPrice, c.max_price);
    push_outcome(&mut v, ConditionKind::PriceChangeMin, c.price_change_min);
    push_outcome(&mut v, ConditionKind::MinVolume, c.min_volume);
    push_outcome(&mut v, ConditionKind::VolumeRatio, c.volume_ratio);
    push_outcome(&mut v, ConditionKind::RsiMin, c.rsi_min);
    push_outcome(&mut v, ConditionKind::RsiMax, c.rsi_max);
    push_outcome(&mut v, ConditionKind::MacdPositive, c.macd_positive);
    push_outcome(&mut v, ConditionKind::MacdAboveSignal, c.macd_above_signal);
    push_outcome(&mut v, ConditionKind::PriceAboveEma9, c.price_above_ema9);
    push_outcome(&mut v, ConditionKind::PriceAboveSma20, c.price_above_sma20);
    push_outcome(&mut v, ConditionKind::Ema9Increasing, c.ema9_increasing);
    push_outcome(&mut v, ConditionKind::Ema9AboveEma21, c.ema9_above_ema21);
    push_outcome(&mut v, ConditionKind::PositiveSentiment, c.positive_sentiment);
    push_outcome(&mut v, ConditionKind::NewsSentimentMin, c.news_sentiment_min);
    push_outcome(&mut v, ConditionKind::MarketHours, c.market_hours);
    push_outcome(&mut v, ConditionKind::NotEarningsDay, c.not_earnings_day);
    assert(v@ =~= checked_outcomes_of(*c));
    v
}

/// Evaluates a rule from its condition checks: every condition it sets is
/// tallied (see `tally_conditions`).
pub fn evaluate_checks(c: &ConditionChecks) -> (r: RuleTally)
    ensures
        r.total_conditions == checked_outcomes_of(*c).len(),
        r.score_hundredths == score_of(checked_outcomes_of(*c)),
        r.met@ == kinds_where(checked_outcomes_of(*c), true),
        r.failed@ == kinds_where(checked_outcomes_of(*c), false),
        r.passed == (kinds_where(checked_outcomes_of(*c), false).len() == 0
            && kinds_where(checked_outcomes_of(*c), true).len() > 0),
{
    let outcomes = checked_outcomes(c);
    tally_conditions(&outcomes)
}

/// The check a rule records for a condition kind: the field of
/// `ConditionChecks` that belongs to that kind.
pub open spec fn check_for(c: ConditionChecks, kind: ConditionKind) -> Option<bool> {
    match kind {
        ConditionKind::MinPrice => c.min_price,
        ConditionKind::MaxPrice => c.max_price,
        ConditionKind::PriceChangeMin => c.price_change_min,
        ConditionKind::MinVolume => c.min_volume,
        ConditionKind::VolumeRatio => c.volume_ratio,
        ConditionKind::RsiMin => c.rsi_min,
        ConditionKind::RsiMax => c.rsi_max,
        ConditionKind::MacdPositive => c.macd_positive,
        ConditionKind::MacdAboveSignal => c.macd_above_signal,
        ConditionKind::PriceAboveEma9 => c.price_above_ema9,
        ConditionKind::PriceAboveSma20 => c.price_above_sma20,
        ConditionKind::Ema9Increasing => c.ema9_increasing,
        ConditionKind::Ema9AboveEma21 => c.ema9_above_ema21,
        ConditionKind::PositiveSentiment => c.positive_sentiment,
        ConditionKind::NewsSentimentMin => c.news_sentiment_min,
        ConditionKind::MarketHours => c.market_hours,
        ConditionKind::NotEarningsDay => c.not_earnings_day,
    }
}

pub open spec fn one_if_set(o: Option<bool>) -> nat {
    if o is Some { 1 } else { 0 }
}

/// How many conditions a rule sets.
pub open spec fn set_count(c: ConditionChecks) -> nat {
    one_if_set(c.min_price) + one_if_set(c.max_price) + one_if_set(c.price_change_min) + one_if_set(c.min_volume)
        + one_if_set(c.volume_ratio) + one_if_set(c.rsi_min) + one_if_set(c.rsi_max) + one_if_set(c.macd_positive)
        + one_if_set(c.macd_above_signal) + one_if_set(c.price_above_ema9) + one_if_set(c.price_above_sma20)
        + one_if_set(c.ema9_increasing) + one_if_set(c.ema9_above_ema21) + one_if_set(c.positive_sentiment)
        + one_if_set(c.news_sentiment_min) + one_if_set(c.market_hours) + one_if_set(c.not_earnings_day)
}

/// Whether some outcome is of this kind.
pub open spec fn has_kind(s: Seq<ConditionOutcome>, kind: ConditionKind) -> bool {
    exists|i: int| 0 <= i < s.len() && #[trigger] s[i].kind == kind
}

proof fn lemma_outcome_step(a: Seq<ConditionOutcome>, k: ConditionKind, o: Option<bool>, kind: ConditionKind, met: bool)
    ensures
        a.contains(ConditionOutcome { kind, met }) ==> (a + outcome_if(k, o)).contains(ConditionOutcome { kind, met }),
        (k == kind && o == Some(met)) ==> (a + outcome_if(k, o)).contains(ConditionOutcome { kind, met }),
        has_kind(a + outcome_if(k, o), kind) ==> (has_kind(a, kind) || (k == kind && o is Some)),
        (a + outcome_if(k, o)).len() == a.len() + one_if_set(o),
{
    let s = a + outcome_if(k, o);
    let x = ConditionOutcome { kind, met };
    if a.contains(x) {
        let i = choose|i: int| 0 <= i < a.len() && a[i] == x;
        assert(s[i] == x);
    }
    if k == kind && o == Some(met) {
        assert(s[a.len() as int] == x);
    }
    if has_kind(s, kind) {
        let i = choose|i: int| 0 <= i < s.len() && #[trigger] s[i].kind == kind;
        if i < a.len() {
            assert(a[i].kind == kind);
        }
    }
}

/// Every condition a rule sets is evaluated once, with its own outcome:
/// for each kind the rule sets, its outcome is among the checked ones; no
/// outcome is of a kind the rule does not set; and there are as many
/// outcomes as conditions set.
#[verifier::spinoff_prover]
#[verifier::rlimit(60)]
pub proof fn law_set_conditions_are_checked(c: ConditionChecks, kind: ConditionKind)
    ensures
        check_for(c, kind) matches Some(m) ==> checked_outcomes_of(c).contains(ConditionOutcome { kind, met: m }),
        check_for(c, kind) is None ==> !has_kind(checked_outcomes_of(c), kind),
        checked_outcomes_of(c).len() == set_count(c),
{
    let m = match check_for(c, kind) {
        Some(m) => m,
        None => false,
    };
    let e = Seq::<ConditionOutcome>::empty();
    assert(!has_kind(e, kind));
    let s1 = outcome_if(ConditionKind::MinPrice, c.min_price);
    assert(e + s1 =~= s1);
    lemma_outcome_step(e, ConditionKind::MinPrice, c.min_price, kind, m);
    let s2 = s1 + outcome_if(ConditionKind::MaxPrice, c.max_price);
    lemma_outcome_step(s1, ConditionKind::MaxPrice, c.max_price, kind, m);
    let s3 = s2 + outcome_if(ConditionKind::PriceChangeMin, c.price_change_min);
    lemma_outcome_step(s2, ConditionKind::PriceChangeMin, c.price_change_min, kind, m);
    let s4 = s3 + outcome_if(ConditionKind::MinVolume, c.min_volume);
    lemma_outcome_step(s3, ConditionKind::MinVolume, c.min_volume, kind, m);
    let s5 = s4 + outcome_if(ConditionKind::VolumeRatio, c.volume_ratio);
    lemma_outcome_step(s4, ConditionKind::VolumeRatio, c.volume_ratio, kind, m);
    let s6 = s5 + outcome_if(ConditionKind::RsiMin, c.rsi_min);
    lemma_outcome_step(s5, ConditionKind::RsiMin, c.rsi_min, kind, m);
    let s7 = s6 + outcome_if(ConditionKind::RsiMax, c.rsi_max);
    lemma_outcome_step(s6, ConditionKind::RsiMax, c.rsi_max, kind, m);
    let s8 = s7 + outcome_if(ConditionKind::MacdPositive, c.macd_positive);
    lemma_outcome_step(s7, ConditionKind::MacdPositive, c.macd_positive, kind, m);
    let s9 = s8 + outcome_if(ConditionKind::MacdAboveSignal, c.macd_above_signal);
    lemma_outcome_step(s8, ConditionKind::MacdAboveSignal, c.macd_above_signal, kind, m);
    let s10 = s9 + outcome_if(ConditionKind::PriceAboveEma9, c.price_above_ema9);
    lemma_outcome_step(s9, ConditionKind::PriceAboveEma9, c.price_above_ema9, kind, m);
    let s11 = s10 + outcome_if(ConditionKind::PriceAboveSma20, c.price_above_sma20);
    lemma_outcome_step(s10, ConditionKind::PriceAboveSma20, c.price_above_sma20, kind, m);
    let s12 = s11 + outcome_if(ConditionKind::Ema9Increasing, c.ema9_increasing);
    lemma_outcome_step(s11, ConditionKind::Ema9Increasing, c.ema9_increasing, kind, m);
    let s13 = s12 + outcome_if(ConditionKind::Ema9AboveEma21, c.ema9_above_ema21);
    lemma_outcome_step(s12, ConditionKind::Ema9AboveEma21, c.ema9_above_ema21, kind, m);
    let s14 = s13 + outcome_if(ConditionKind::PositiveSentiment, c.positive_sentiment);
    lemma_outcome_step(s13, ConditionKind::PositiveSentiment, c.positive_sentiment, kind, m);
    let s15 = s14 + outcome_if(ConditionKind::NewsSentimentMin, c.news_sentiment_min);
    lemma_outcome_step(s14, ConditionKind::NewsSentimentMin, c.news_sentiment_min, kind, m);
    let s16 = s15 + outcome_if(ConditionKind::MarketHours, c.market_hours);
    lemma_outcome_step(s15, ConditionKind::MarketHours, c.market_hours, kind, m);
    let s17 = s16 + outcome_if(ConditionKind::NotEarningsDay, c.not_earnings_day);
    lemma_outcome_step(s16, ConditionKind::NotEarningsDay, c.not_earnings_day, kind, m);
    assert(checked_outcomes_of(c) == s17);
}

/// A rule passes only when no condition it sets failed: a set condition that
/// did not hold is among the failed ones, so the rule does not pass.
pub proof fn law_every_set_condition_counts(c: ConditionChecks, kind: ConditionKind)
    requires
        checked_outcomes_of(c).contains(ConditionOutcome { kind, met: false }),
    ensures
        kinds_where(checked_outcomes_of(c), false).contains(kind),
        kinds_where(checked_outcomes_of(c), false).len() > 0,
{
    lemma_failed_kind_listed(checked_outcomes_of(c), kind);
}

proof fn lemma_failed_kind_listed(outcomes: Seq<ConditionOutcome>, kind: ConditionKind)
    requires
        outcomes.contains(ConditionOutcome { kind, met: false }),
    ensures
        kinds_where(outcomes, false).contains(kind),
    decreases outcomes.len(),
{
    let o = ConditionOutcome { kind, met: false };
    if outcomes.last() == o {
        assert(kinds_where(outcomes, false) == kinds_where(outcomes.drop_last(), false).push(kind));
        assert(kinds_where(outcomes, false)[kinds_where(outcomes, false).len() - 1] == kind);
    } else {
        let i = choose|i: int| 0 <= i < outcomes.len() && outcomes[i] == o;
        assert(i < outcomes.len() - 1);
        assert(outcomes.drop_last()[i] == o);
        lemma_failed_kind_listed(outcomes.drop_last(), kind);
        let w = kinds_where(outcomes.drop_last(), false);
        let j = choose|j: int| 0 <= j < w.len() && w[j] == kind;
        if outcomes.last().met == false {
            assert(kinds_where(outcomes, false)[j] == kind);
        } else {
            assert(kinds_where(outcomes, false)[j] == kind);
        }
    }
}

/// Whether a volume reaches a rule's minimum volume.
pub fn volume_condition_met(volume: u64, min_volume: u64) -> (r: bool)
    ensures
        r == (volume >= min_volume),
{
    volume >= min_volume
}

/// Whether an observed yes/no reading agrees with what a rule expects; a
/// reading that is not available never agrees.
pub fn flag_condition_met(expected: bool, observed: Option<bool>) -> (r: bool)
    ensures
        r == (observed == Some(expected)),
{
    match observed {
        Some(b) => b == expected,
        None => false,
    }
}

// ----- Market hours as the condition evaluator sees them -----

/// The months counted as daylight-saving time: March to October.
pub open spec fn dst_month(month: u32) -> bool {
    3 <= month <= 10
}

/// The Eastern offset from UTC, in hours, in and out of daylight-saving time.
pub open spec fn eastern_offset_hours(dst: bool) -> int {
    if dst { -4 } else { -5 }
}

/// The regular session, 9:30 AM to 4:00 PM, on a weekday, read at the instant
/// `secs` shifted by the Eastern offset.
pub open spec fn regular_hours_at(secs: int, dst: bool) -> bool {
    let et = secs + eastern_offset_hours(dst) * 3600;
    let weekday = (et / SECONDS_PER_DAY as int + 3) % 7;
    let minutes = ((et % SECONDS_PER_DAY as int) / 3600) * 60 + (et % 3600) / 60;
    weekday < 5 && 570 <= minutes < 960
}

/// The condition evaluator of the rules engine.
#[derive(Debug)]
pub struct ConditionEvaluator;

impl ConditionEvaluator {
    /// A condition evaluator.
    pub fn new() -> (r: Self)
        ensures
            r == ConditionEvaluator,
    {
        ConditionEvaluator
    }

    /// Whether the month of `t` (in UTC) falls in the daylight-saving months.
    pub fn is_dst_at(&self, t: &UtcInstant) -> (r: bool)
        ensures
            r == dst_month(crate::clock::utc_month_of(t.spec_secs())),
    {
        let secs = t.secs();
        let cal = utc_calendar(secs);
        cal.month >= 3 && cal.month <= 10
    }

    /// Whether the approximate Eastern reading of `t` falls in the regular
    /// session, 9:30 AM to 4:00 PM on a weekday, given whether daylight-saving
    /// time is taken to apply.
    pub fn is_market_hours_at(&self, t: &UtcInstant, dst: bool) -> (r: bool)
        ensures
            r == regular_hours_at(t.spec_secs() as int, dst),
    {
        let secs = t.secs();
        let shifted: i64 = if dst { secs - 4 * 3600 } else { secs - 5 * 3600 };
        assert(chrono_representable(shifted, 0));
        let cal = utc_calendar(shifted);
        let minutes = cal.hour * 60 + cal.minute;
        cal.weekday < 5 && minutes >= 570 && minutes < 960
    }

    /// Whether daylight-saving time is taken to apply now.
    pub fn is_dst(&self) -> (r: bool)
        ensures
            exists|secs: i64| secs >= 0 && r == dst_month(crate::clock::utc_month_of(secs)),
    {
        let now = UtcInstant::now();
        self.is_dst_at(&now)
    }

    /// Whether the market counts as open for a rule now.
    pub fn is_market_hours(&self) -> (r: bool)
        ensures
            exists|secs: i64, dst: bool| secs >= 0 && r == regular_hours_at(secs as int, dst),
    {
        let now = UtcInstant::now();
        let dst = self.is_dst();
        let r = self.is_market_hours_at(&now, dst);
        assert(now.spec_secs() >= 0 && r == regular_hours_at(now.spec_secs() as int, dst));
        r
    }
}

impl Default for ConditionEvaluator {
    fn default() -> (r: Self)
        ensures
            r == ConditionEvaluator,
    {
        ConditionEvaluator::new()
    }
}

// ----- Risk grading -----

/// The grade of a trade's risk from three findings: the exposure after it is
/// high, warnings were raised, and its possible loss is large.
pub open spec fn risk_level_of(high_exposure: bool, has_warnings: bool, large_loss: bool) -> RiskLevel {
    if high_exposure && has_warnings && large_loss {
        RiskLevel::Critical
    } else if high_exposure || (has_warnings && large_loss) {
        RiskLevel::High
    } else if has_warnings || large_loss {
        RiskLevel::Medium
    } else {
        RiskLevel::Low
    }
}

/// Grades a trade's risk (see `risk_level_of`).
pub fn risk_level_for(high_exposure: bool, has_warnings: bool, large_loss: bool) -> (r: RiskLevel)
    ensures
        r == risk_level_of(high_exposure, has_warnings, large_loss),
{
    if high_exposure && has_warnings && large_loss {
        RiskLevel::Critical
    } else if high_exposure || (has_warnings && large_loss) {
        RiskLevel::High
    } else if has_warnings || large_loss {
        RiskLevel::Medium
    } else {
        RiskLevel::Low
    }
}

/// Whether an assessed action may go ahead: never at critical risk, at high
/// risk only with at most one warning, always at medium or low risk.
pub open spec fn may_execute(level: RiskLevel, warnings: nat) -> bool {
    match level {
        RiskLevel::Critical => false,
        RiskLevel::High => warnings <= 1,
        RiskLevel::Medium => true,
        RiskLevel::Low => true,
    }
}

/// Whether an action assessed at `level` with `warnings` warnings may go
/// ahead (see `may_execute`).
pub fn should_execute_action(level: RiskLevel, warnings: usize) -> (r: bool)
    ensures
        r == may_execute(level, warnings as nat),
{
    match level {
        RiskLevel::Critical => false,
        RiskLevel::High => warnings <= 1,
        RiskLevel::Medium => true,
        RiskLevel::Low => true,
    }
}

// ----- What a triggered rule does -----

/// The action a triggered rule takes on a symbol.
#[allow(inconsistent_fields)]
#[derive(Debug, Clone, PartialEq, Eq)]
pub enum PlannedAction {
    /// Buy this many shares.
    Buy { quantity: u64 },
    /// Sell this many shares, for this reason.
    Sell { quantity: u64, reason: SellReason },
    /// Do nothing, for this reason.
    Hold { reason: String },
}

/// The reason given for holding when no share can be bought.
pub open spec fn hold_reason_text() -> Seq<char> {
    "Insufficient funds or position size too small"@
}

/// What a triggered rule does: with an open position in the symbol, sell all
/// of it (the rule changed); otherwise buy the sized quantity, or hold when
/// that is zero.
pub fn plan_action(open_quantity: Option<u64>, buy_quantity: u64) -> (r: PlannedAction)
    ensures
        open_quantity matches Some(q) ==> r == (PlannedAction::Sell { quantity: q, reason: SellReason::RuleChange }),
        open_quantity is None && buy_quantity == 0 ==> (r matches PlannedAction::Hold { reason } && reason@ == hold_reason_text()),
        open_quantity is None && buy_quantity > 0 ==> r == (PlannedAction::Buy { quantity: buy_quantity }),
{
    match open_quantity {
        Some(q) => PlannedAction::Sell { quantity: q, reason: SellReason::RuleChange },
        None => {
            if buy_quantity == 0 {
                let reason = String::from_str("Insufficient funds or position size too small");
                proof {
                    reveal_strlit("Insufficient funds or position size too small");
                }
                PlannedAction::Hold { reason }
            } else {
                PlannedAction::Buy { quantity: buy_quantity }
            }
        },
    }
}

// ----- Timing limits and performance bookkeeping -----

/// The decision time limits of an evaluation cycle, in milliseconds.
#[derive(Debug, Clone, Copy, PartialEq, Eq, Structural)]
pub struct DecisionLimits {
    pub max_decision_ms: u64,
    pub warning_ms: u64,
}

/// The limits in force: the maximum defaults to 5 ms, and the warning
/// threshold to half the maximum.
pub fn decision_limits(max_decision_ms: Option<u64>, warning_ms: Option<u64>) -> (r: DecisionLimits)
    ensures
        r.max_decision_ms == (match max_decision_ms { Some(m) => m, None => 5 }),
        r.warning_ms == (match warning_ms { Some(w) => w, None => r.max_decision_ms / 2 }),
{
    let max = match max_decision_ms {
        Some(m) => m,
        None => 5,
    };
    let warn = match warning_ms {
        Some(w) => w,
        None => max / 2,
    };
    DecisionLimits { max_decision_ms: max, warning_ms: warn }
}

/// The time limit for evaluating one symbol, in microseconds.
pub fn symbol_limit_micros(max_decision_ms: u64) -> (r: u64)
    requires
        max_decision_ms * 1000 <= u64::MAX,
    ensures
        r == max_decision_ms * 1000,
{
    max_decision_ms * 1000
}

/// How many decisions were timed and their total time in microseconds.
#[derive(Debug, Clone, Copy, PartialEq, Eq, Structural)]
pub struct DecisionMetrics {
    pub decision_count: u64,
    pub total_decision_time_micros: u64,
}

impl DecisionMetrics {
    /// No decision timed yet.
    pub fn new() -> (r: Self)
        ensures
            r.decision_count == 0 && r.total_decision_time_micros == 0,
    {
        DecisionMetrics { decision_count: 0, total_decision_time_micros: 0 }
    }

    /// Counts one decision that took `micros` microseconds, when performance
    /// is tracked; otherwise changes nothing.
    pub fn record(&mut self, track_performance: bool, micros: u64)
        requires
            track_performance ==> old(self).decision_count + 1 <= u64::MAX,
            track_performance ==> old(self).total_decision_time_micros + micros <= u64::MAX,
        ensures
            track_performance ==> final(self).decision_count == old(self).decision_count + 1
                && final(self).total_decision_time_micros == old(self).total_decision_time_micros + micros,
            !track_performance ==> *final(self) == *old(self),
    {
        if track_performance {
            self.decision_count = self.decision_count + 1;
            self.total_decision_time_micros = self.total_decision_time_micros + micros;
        }
    }

    /// The average decision time in whole microseconds, or 0 before any
    /// decision.
    pub fn average_micros(&self) -> (r: u64)
        ensures
            self.decision_count > 0 ==> r == self.total_decision_time_micros / self.decision_count,
            self.decision_count == 0 ==> r == 0,
    {
        if self.decision_count > 0 {
            self.total_decision_time_micros / self.decision_count
        } else {
            0
        }
    }
}

/// The rules engine's performance figures.
#[derive(Debug, Clone, Copy, PartialEq, Eq, Structural)]
pub struct EnginePerformanceStats {
    pub total_decisions: u64,
    pub average_decision_time_micros: u64,
    pub cache_stats: CacheCounts,
}

/// The performance figures from the decision metrics and the indicator
/// cache's counts.
pub fn performance_stats(metrics: &DecisionMetrics, cache_stats: CacheCounts) -> (r: EnginePerformanceStats)
    ensures
        r.total_decisions == metrics.decision_count,
        metrics.decision_count > 0 ==> r.average_decision_time_micros == metrics.total_decision_time_micros / metrics.decision_count,
        metrics.decision_count == 0 ==> r.average_decision_time_micros == 0,
        r.cache_stats == cache_stats,
{
    EnginePerformanceStats {
        total_decisions: metrics.decision_count,
        average_decision_time_micros: metrics.average_micros(),
        cache_stats,
    }
}

/// How a decision is logged.
#[derive(Debug, Clone, Copy, PartialEq, Eq, Structural)]
pub enum DecisionLogLevel {
    /// Not logged at all.
    Skip,
    Info,
    Debug,
}

/// How a decision is logged and whether it is kept in the decision history.
#[derive(Debug, Clone, Copy, PartialEq, Eq, Structural)]
pub struct DecisionLogPlan {
    pub level: DecisionLogLevel,
    pub keep_history: bool,
}

/// A decision is logged when all decisions are logged (at info level) or
/// performance is tracked (at debug level); it is kept in the history when
/// performance is tracked and a retention period is set.
pub fn decision_log_plan(log_all_decisions: bool, track_performance: bool, history_days: Option<u32>) -> (r: DecisionLogPlan)
    ensures
        !log_all_decisions && !track_performance ==> r.level == DecisionLogLevel::Skip && !r.keep_history,
        log_all_decisions ==> r.level == DecisionLogLevel::Info,
        !log_all_decisions && track_performance ==> r.level == DecisionLogLevel::Debug,
        (log_all_decisions || track_performance) ==> r.keep_history == (track_performance && history_days is Some),
{
    if !log_all_decisions && !track_performance {
        return DecisionLogPlan { level: DecisionLogLevel::Skip, keep_history: false };
    }
    let level = if log_all_decisions { DecisionLogLevel::Info } else { DecisionLogLevel::Debug };
    DecisionLogPlan { level, keep_history: track_performance && history_days.is_some() }
}

/// Why the rules engine cannot be built from its configuration.
#[derive(Debug, Clone, Copy, PartialEq, Eq, Structural)]
pub enum EngineConfigError {
    MissingEvaluationInterval,
    MissingMaxDecisionTime,
}

impl EngineConfigError {
    /// The error's text.
    pub fn message(&self) -> (r: &'static str)
        ensures
            *self == EngineConfigError::MissingEvaluationInterval ==> r@ == "Rules engine evaluation interval must be configured when enabled"@,
            *self == EngineConfigError::MissingMaxDecisionTime ==> r@ == "Rules engine max decision time must be configured when enabled"@,
    {
        match self {
            EngineConfigError::MissingEvaluationInterval => "Rules engine evaluation interval must be configured when enabled",
            EngineConfigError::MissingMaxDecisionTime => "Rules engine max decision time must be configured when enabled",
        }
    }
}

/// An enabled rules engine needs its evaluation interval, then its decision
/// time limit; a disabled one needs neither.
pub fn check_engine_config(enabled: bool, evaluation_interval_ms: Option<u64>, max_decision_time_ms: Option<u64>) -> (r: Result<(), EngineConfigError>)
    ensures
        r == (if enabled && evaluation_interval_ms is None {
            Err(EngineConfigError::MissingEvaluationInterval)
        } else if enabled && max_decision_time_ms is None {
            Err(EngineConfigError::MissingMaxDecisionTime)
        } else {
            Ok(())
        }),
{
    if enabled && evaluation_interval_ms.is_none() {
        Err(EngineConfigError::MissingEvaluationInterval)
    } else if enabled && max_decision_time_ms.is_none() {
        Err(EngineConfigError::MissingMaxDecisionTime)
    } else {
        Ok(())
    }
}

/// The rules engine's own state as it is made: its rules, the share side
/// of its portfolio, its decision metrics, and whether it runs.
pub struct RulesEngineState<T> {
    pub rules: KeyedStore<T>,
    pub portfolio: PortfolioBook,
    pub metrics: DecisionMetrics,
    pub running: bool,
}

impl<T> RulesEngineState<T> {
    /// A new rules engine for a configuration and a position limit: refused
    /// as `check_engine_config` says; otherwise with no rule, an empty
    /// portfolio allowing `max_positions` positions, no decision timed, and
    /// not running.
    pub fn new(config: &RulesEngineConfig, max_positions: u32) -> (r: Result<Self, EngineConfigError>)
        ensures
            r is Err <==> (config.enabled && !(config.evaluation_interval_ms is Some && config.max_decision_time_ms is Some)),
            config.enabled && config.evaluation_interval_ms is None ==> (r matches Err(e) && e == EngineConfigError::MissingEvaluationInterval),
            config.enabled && config.evaluation_interval_ms is Some && config.max_decision_time_ms is None
                ==> (r matches Err(e) && e == EngineConfigError::MissingMaxDecisionTime),
            r matches Ok(s) ==> {
                &&& s.rules.wf()
                &&& s.rules@ == Map::<Seq<char>, T>::empty()
                &&& s.portfolio.wf()
                &&& s.portfolio.positions() == Map::<Seq<char>, HeldPosition>::empty()
                &&& s.portfolio.position_count() == 0
                &&& s.portfolio.max_positions() == max_positions
                &&& s.metrics.decision_count == 0
                &&& s.metrics.total_decision_time_micros == 0
                &&& !s.running
            },
    {
        match check_engine_config(config.enabled, config.evaluation_interval_ms, config.max_decision_time_ms) {
            Err(e) => Err(e),
            Ok(()) => Ok(RulesEngineState {
                rules: KeyedStore::new(),
                portfolio: PortfolioBook::new(max_positions),
                metrics: DecisionMetrics::new(),
                running: false,
            }),
        }
    }
}

// ----- The rule set -----

/// Why a rule could not be removed.
#[derive(Debug, Clone, PartialEq, Eq)]
pub enum RuleError {
    /// No rule has this identifier.
    NotFound(String),
}

impl RuleError {
    /// The error's text.
    pub fn message(&self) -> (r: String)
        ensures
            self matches RuleError::NotFound(id) ==> r@ == "Rule not found: "@ + id@,
    {
        match self {
            RuleError::NotFound(id) => {
                let mut m = String::from_str("Rule not found: ");
                m.append(id.as_str());
                m
            },
        }
    }
}

/// Adds a rule under its identifier, replacing a rule kept under it before.
pub fn add_rule<T>(rules: &mut KeyedStore<T>, rule_id: String, rule: T)
    requires
        old(rules).wf(),
    ensures
        final(rules).wf(),
        final(rules)@ == old(rules)@.insert(rule_id@, rule),
{
    rules.insert(rule_id, rule);
}

/// Removes the rule kept under `rule_id`, which must be there.
pub fn remove_rule<T>(rules: &mut KeyedStore<T>, rule_id: &str) -> (r: Result<T, RuleError>)
    requires
        old(rules).wf(),
    ensures
        final(rules).wf(),
        final(rules)@ == old(rules)@.remove(rule_id@),
        r is Ok <==> old(rules)@.contains_key(rule_id@),
        r matches Ok(v) ==> v == old(rules)@[rule_id@],
        r matches Err(RuleError::NotFound(id)) ==> id@ == rule_id@,
{
    match rules.remove(rule_id) {
        Some(v) => Ok(v),
        None => Err(RuleError::NotFound(String::from_str(rule_id))),
    }
}

/// A rule that was added can be removed again, and removing it gives back
/// the rule that was added and leaves the other rules as they were before.
pub proof fn law_remove_undoes_add<T>(before: Map<Seq<char>, T>, rule_id: Seq<char>, rule: T)
    requires
        !before.contains_key(rule_id),
    ensures
        before.insert(rule_id, rule).contains_key(rule_id),
        before.insert(rule_id, rule)[rule_id] == rule,
        before.insert(rule_id, rule).remove(rule_id) == before,
{
    assert(before.insert(rule_id, rule).remove(rule_id) =~= before);
}

// ----- Where a price comes from -----

/// A place a price is looked up.
#[derive(Debug, Clone, Copy, PartialEq, Eq, Structural)]
pub enum PriceSource {
    /// The current market price; used when positive.
    CurrentMarket,
    /// The previous day's close; used when positive.
    PreviousDayClose,
    /// The last price of the portfolio's position in the symbol; used as it is.
    LastKnown,
    /// The cached previous close; used when positive.
    MarketClose,
    /// The configured price; used when positive.
    UserConfigured,
}

/// The places a price is looked up, in order: the market, the previous
/// day, then the one the fallback setting names (none when it refuses).
pub open spec fn price_sources_of(strategy: FallbackChoiceView) -> Seq<PriceSource> {
    seq![PriceSource::CurrentMarket, PriceSource::PreviousDayClose] + match strategy {
        FallbackChoiceView::LastKnown => seq![PriceSource::LastKnown],
        FallbackChoiceView::MarketClose => seq![PriceSource::MarketClose],
        FallbackChoiceView::UserPrice(_) => seq![PriceSource::UserConfigured],
        FallbackChoiceView::Refuse => Seq::<PriceSource>::empty(),
    }
}

/// The places a price is looked up (see `price_sources_of`).
pub fn price_sources(strategy: &FallbackChoice) -> (r: Vec<PriceSource>)
    ensures
        r@ == price_sources_of(strategy@),
{
    let mut v: Vec<PriceSource> = Vec::new();
    v.push(PriceSource::CurrentMarket);
    v.push(PriceSource::PreviousDayClose);
    match strategy {
        FallbackChoice::LastKnown => v.push(PriceSource::LastKnown),
        FallbackChoice::MarketClose => v.push(PriceSource::MarketClose),
        FallbackChoice::UserPrice(_) => v.push(PriceSource::UserConfigured),
        FallbackChoice::Refuse => {},
    }
    assert(v@ =~= price_sources_of(strategy@));
    v
}

/// Why no price was found for a symbol.
#[derive(Debug, Clone, PartialEq, Eq)]
pub enum PriceFailure {
    /// The portfolio holds no position in the symbol.
    NoLastKnown,
    /// The cached previous close is missing or not positive.
    InvalidMarketClose,
    /// The previous close could not be fetched, with this error.
    MarketCloseUnavailable(String),
    /// The fallback setting refuses to supply a price.
    Refused,
    /// The configured price is zero or below; the text is that price as
    /// printed.
    InvalidUserPrice(String),
}

impl PriceFailure {
    /// The failure's text for `symbol`.
    pub fn message(&self, symbol: &str) -> (r: String)
        ensures
            self is NoLastKnown ==> r@ == "No last known price available for "@ + symbol@,
            self is InvalidMarketClose ==> r@ == "Invalid market close price for "@ + symbol@,
            self matches PriceFailure::MarketCloseUnavailable(e) ==> r@ == "Failed to get market close price for "@ + symbol@ + ": "@ + e@,
            self is Refused ==> r@ == "Price fallback strategy is set to refuse execution - no price available for "@ + symbol@,
            self matches PriceFailure::InvalidUserPrice(p) ==> r@ == "Invalid user configured price: "@ + p@,
    {
        match self {
            PriceFailure::NoLastKnown => {
                let mut m = String::from_str("No last known price available for ");
                m.append(symbol);
                m
            },
            PriceFailure::InvalidMarketClose => {
                let mut m = String::from_str("Invalid market close price for ");
                m.append(symbol);
                m
            },
            PriceFailure::MarketCloseUnavailable(e) => {
                let mut m = String::from_str("Failed to get market close price for ");
                m.append(symbol);
                m.append(": ");
                m.append(e.as_str());
                m
            },
            PriceFailure::Refused => {
                let mut m = String::from_str("Price fallback strategy is set to refuse execution - no price available for ");
                m.append(symbol);
                m
            },
            PriceFailure::InvalidUserPrice(p) => {
                let mut m = String::from_str("Invalid user configured price: ");
                m.append(p.as_str());
                m
            },
        }
    }
}

/// The outcome of one price lookup, as its caller read it. Prices are
/// compared with zero by the caller.
#[derive(Debug, Clone)]
pub enum PriceLookup<P> {
    /// A price above zero.
    Positive(P),
    /// A price of zero or below, or none at all; the text is the price as
    /// printed.
    NotPositive(String),
    /// The lookup failed, with this error text.
    Failed(String),
}

/// The price the fallback setting supplies once neither the market price nor
/// the previous close is positive: the last known price of the position when
/// there is one; the cached previous close when it is positive; the
/// configured price when it is positive (a configured text that does not
/// read as a number refuses); nothing under `Refuse`.
pub open spec fn fallback_price_of<P>(
    strategy: FallbackChoiceView,
    user_price: PriceLookup<P>,
    last_known: Option<P>,
    market_close: PriceLookup<P>,
) -> Result<(P, PriceSource), PriceFailure> {
    match strategy {
        FallbackChoiceView::LastKnown => match last_known {
            Some(p) => Ok((p, PriceSource::LastKnown)),
            None => Err(PriceFailure::NoLastKnown),
        },
        FallbackChoiceView::MarketClose => match market_close {
            PriceLookup::Positive(p) => Ok((p, PriceSource::MarketClose)),
            PriceLookup::NotPositive(_) => Err(PriceFailure::InvalidMarketClose),
            PriceLookup::Failed(e) => Err(PriceFailure::MarketCloseUnavailable(e)),
        },
        FallbackChoiceView::UserPrice(_) => match user_price {
            PriceLookup::Positive(p) => Ok((p, PriceSource::UserConfigured)),
            PriceLookup::NotPositive(t) => Err(PriceFailure::InvalidUserPrice(t)),
            PriceLookup::Failed(_) => Err(PriceFailure::Refused),
        },
        FallbackChoiceView::Refuse => Err(PriceFailure::Refused),
    }
}

/// The price used for a symbol: the current market price when it is
/// positive, else the previous day's close when it is positive, else what
/// the fallback setting supplies (see `fallback_price_of`).
pub open spec fn chosen_price_of<P>(
    market: PriceLookup<P>,
    previous_day: PriceLookup<P>,
    strategy: FallbackChoiceView,
    user_price: PriceLookup<P>,
    last_known: Option<P>,
    market_close: PriceLookup<P>,
) -> Result<(P, PriceSource), PriceFailure> {
    match market {
        PriceLookup::Positive(p) => Ok((p, PriceSource::CurrentMarket)),
        _ => match previous_day {
            PriceLookup::Positive(p) => Ok((p, PriceSource::PreviousDayClose)),
            _ => fallback_price_of(strategy, user_price, last_known, market_close),
        },
    }
}

/// Chooses a symbol's price from the lookups (see `chosen_price_of`), with
/// the place it came from.
pub fn choose_price<P>(
    market: PriceLookup<P>,
    previous_day: PriceLookup<P>,
    strategy: &FallbackChoice,
    user_price: PriceLookup<P>,
    last_known: Option<P>,
    market_close: PriceLookup<P>,
) -> (r: Result<(P, PriceSource), PriceFailure>)
    ensures
        r == chosen_price_of(market, previous_day, strategy@, user_price, last_known, market_close),
{
    if let PriceLookup::Positive(p) = market {
        return Ok((p, PriceSource::CurrentMarket));
    }
    if let PriceLookup::Positive(p) = previous_day {
        return Ok((p, PriceSource::PreviousDayClose));
    }
    match strategy {
        FallbackChoice::LastKnown => match last_known {
            Some(p) => Ok((p, PriceSource::LastKnown)),
            None => Err(PriceFailure::NoLastKnown),
        },
        FallbackChoice::MarketClose => match market_close {
            PriceLookup::Positive(p) => Ok((p, PriceSource::MarketClose)),
            PriceLookup::NotPositive(_) => Err(PriceFailure::InvalidMarketClose),
            PriceLookup::Failed(e) => Err(PriceFailure::MarketCloseUnavailable(e)),
        },
        FallbackChoice::UserPrice(_) => match user_price {
            PriceLookup::Positive(p) => Ok((p, PriceSource::UserConfigured)),
            PriceLookup::NotPositive(t) => Err(PriceFailure::InvalidUserPrice(t)),
            PriceLookup::Failed(_) => Err(PriceFailure::Refused),
        },
        FallbackChoice::Refuse => Err(PriceFailure::Refused),
    }
}

/// A chosen price comes from one of the places `price_sources_of` lists for
/// the fallback setting, and every place listed before it gave no usable
/// price.
pub proof fn law_price_from_first_usable_source<P>(
    market: PriceLookup<P>,
    previous_day: PriceLookup<P>,
    strategy: FallbackChoiceView,
    user_price: PriceLookup<P>,
    last_known: Option<P>,
    market_close: PriceLookup<P>,
)
    ensures
        chosen_price_of(market, previous_day, strategy, user_price, last_known, market_close) matches Ok((_, src))
            ==> price_sources_of(strategy).contains(src),
        chosen_price_of(market, previous_day, strategy, user_price, last_known, market_close) matches Ok((_, src))
            && src != PriceSource::CurrentMarket ==> !(market is Positive),
        chosen_price_of(market, previous_day, strategy, user_price, last_known, market_close) matches Ok((_, src))
            && src != PriceSource::CurrentMarket && src != PriceSource::PreviousDayClose ==> !(previous_day is Positive),
        strategy == FallbackChoiceView::Refuse ==> (chosen_price_of(market, previous_day, strategy, user_price, last_known, market_close) is Err
            <==> !(market is Positive) && !(previous_day is Positive)),
{
    let srcs = price_sources_of(strategy);
    assert(srcs[0] == PriceSource::CurrentMarket);
    assert(srcs[1] == PriceSource::PreviousDayClose);
    match strategy {
        FallbackChoiceView::LastKnown => assert(srcs[2] == PriceSource::LastKnown),
        FallbackChoiceView::MarketClose => assert(srcs[2] == PriceSource::MarketClose),
        FallbackChoiceView::UserPrice(_) => assert(srcs[2] == PriceSource::UserConfigured),
        FallbackChoiceView::Refuse => {},
    }
}

// ----- Fresh indicator readings -----

/// The default volume when the market price is known but the day's bar is
/// not.
pub const DEFAULT_VOLUME: u64 = 1_000_000;

/// The volume used with the last-resort price.
pub const FALLBACK_VOLUME: u64 = 1000;

/// The price and volume a fresh indicator set starts from: the current
/// market price with the day bar's volume (1,000,000 without a bar); else
/// the day bar's close and volume; else `fallback` with a volume of 1000.
pub fn indicator_price_volume<P: Copy>(current: Option<P>, day_bar: Option<(P, u64)>, fallback: P) -> (r: (P, u64))
    ensures
        current matches Some(p) ==> r == (p, match day_bar {
            Some(b) => b.1,
            None => DEFAULT_VOLUME,
        }),
        current is None && day_bar is Some ==> r == day_bar->Some_0,
        current is None && day_bar is None ==> r == (fallback, FALLBACK_VOLUME),
{
    match current {
        Some(p) => match day_bar {
            Some(b) => (p, b.1),
            None => (p, DEFAULT_VOLUME),
        },
        None => match day_bar {
            Some(b) => b,
            None => (fallback, FALLBACK_VOLUME),
        },
    }
}

/// The first reading of an indicator answer: the value of its first entry,
/// when the answer lists entries and that entry has a value.
pub fn first_reading<V: Copy>(values: &Option<Vec<Option<V>>>) -> (r: Option<V>)
    ensures
        r == match *values {
            Some(v) => if v@.len() > 0 {
                v@[0]
            } else {
                None
            },
            None => None,
        },
{
    match values {
        Some(v) => if v.len() > 0 {
            v[0]
        } else {
            None
        },
        None => None,
    }
}

} // verus!
