//! Kinds shared by positions, decisions and risk assessments.
use vstd::prelude::*;

verus! {

/// The direction of a position.
#[derive(Debug, Clone, Copy, PartialEq, Eq, Structural)]
pub enum PositionSide {
    Long,
    Short,
}

/// Where a position stands.
#[derive(Debug, Clone, Copy, PartialEq, Eq, Structural)]
pub enum PositionStatus {
    Open,
    Closed,
    Closing,
}

/// What a trading decision does.
#[derive(Debug, Clone, Copy, PartialEq, Eq, Structural)]
pub enum DecisionAction {
    Buy,
    Sell,
    Hold,
}

/// Why a position is sold.
#[derive(Debug, Clone, Copy, PartialEq, Eq, Structural)]
pub enum SellReason {
    StopLoss,
    TakeProfit,
    TrailingStop,
    TimeLimit,
    RuleChange,
    Manual,
}

/// How risky a trade is judged to be.
#[derive(Debug, Clone, Copy, PartialEq, Eq, Structural)]
pub enum RiskLevel {
    Low,
    Medium,
    High,
    Critical,
}

} // verus!
