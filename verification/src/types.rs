//! Data model shared across the agent: decision-provider outputs, positions,
//! trade records and price history.
//!
//! Monetary values follow the crate-wide integer model (see the crate doc):
//! prices and quantities count fixed base units, a notional or balance counts
//! quantity-unit times price-unit, and percentage-like figures carry their
//! scale in the field's doc comment.

use vstd::prelude::*;

verus! {

// ===== Price history =====

/// One candle of price history, in price and volume base units.
#[derive(Clone, Copy, Debug, PartialEq, Eq, Structural)]
pub struct Kline {
    pub timestamp: i64,
    pub open: u64,
    pub high: u64,
    pub low: u64,
    pub close: u64,
    pub volume: u64,
}

/// Derived indicators over a window of price history.
///
/// Moving averages and the ATR are in price units; the `price_change_*`
/// fields are in basis points (1/100 of a percent) as is `atr_percent`;
/// `volume_ratio` is in percent of the 20-period average volume.
#[derive(Clone, Copy, Debug, PartialEq, Eq, Structural)]
pub struct TechnicalIndicators {
    pub sma_5: u64,
    pub sma_20: u64,
    pub sma_50: u64,
    pub sma_100: u64,
    pub price_change_1: i64,
    pub price_change_3: i64,
    pub price_change_6: i64,
    pub price_change_12: i64,
    pub atr_14: u64,
    pub atr_percent: u64,
    pub volume_ratio: u64,
}

// ===== Trading decision =====

/// The final trade signal of the decision chain.
#[derive(Clone, Copy, Debug, PartialEq, Eq, Structural)]
pub enum Signal {
    Buy,
    Sell,
    Hold,
}

/// How certain the decision chain is of its signal.
#[derive(Clone, Copy, Debug, PartialEq, Eq, Structural)]
pub enum Confidence {
    High,
    Medium,
    Low,
}

/// Final decision of the chain: a signal, the suggested quantity in quantity
/// units, and the stated reasoning.
#[derive(Clone, Debug)]
pub struct TradingDecision {
    pub signal: Signal,
    pub reason: String,
    pub confidence: Confidence,
    pub amount: u64,
}

// ===== Market analysis =====

/// Trend direction reported by market analysis.
#[derive(Clone, Copy, Debug, PartialEq, Eq, Structural)]
pub enum TrendDirection {
    Bullish,
    Bearish,
    Neutral,
}

/// Trend strength reported by market analysis.
#[derive(Clone, Copy, Debug, PartialEq, Eq, Structural)]
pub enum TrendStrength {
    Strong,
    Medium,
    Weak,
}

/// Market phase reported by market analysis.
#[derive(Clone, Copy, Debug, PartialEq, Eq, Structural)]
pub enum MarketPhase {
    Accumulation,
    Markup,
    Distribution,
    Markdown,
}

/// Output of the market-analysis provider; support and resistance are in
/// price units.
#[derive(Clone, Debug)]
pub struct MarketReport {
    pub trend: TrendDirection,
    pub strength: TrendStrength,
    pub market_phase: MarketPhase,
    pub support: u64,
    pub resistance: u64,
    pub analysis: String,
}

// ===== Strategy advice =====

/// Operation suggested by the strategy provider.
#[derive(Clone, Copy, Debug, PartialEq, Eq, Structural)]
pub enum StrategyAction {
    OpenLong,
    OpenShort,
    AddPosition,
    ClosePosition,
    Hold,
}

/// Output of the strategy provider; `timing_score` grades the entry timing
/// from 1 to 10.
#[derive(Clone, Debug)]
pub struct StrategyAdvice {
    pub action: StrategyAction,
    pub reasoning: String,
    pub timing_score: u8,
    pub target_side: Option<PositionSide>,
}

// ===== Risk assessment =====

/// Risk grade of the risk provider.
#[derive(Clone, Copy, Debug, PartialEq, Eq, Structural)]
pub enum RiskLevel {
    Low,
    Medium,
    High,
}

/// Verdict of the risk provider on the suggested trade.
#[derive(Clone, Copy, Debug, PartialEq, Eq, Structural)]
pub enum ApprovalStatus {
    Approved,
    Adjusted,
    Rejected,
}

/// Output of the risk provider; `suggested_amount` is in quantity units.
#[derive(Clone, Debug)]
pub struct RiskAssessment {
    pub risk_level: RiskLevel,
    pub suggested_amount: u64,
    pub approval: ApprovalStatus,
    pub warnings: Vec<String>,
    pub reason: String,
}

// ===== Portfolio allocation =====

/// Execution priority of a symbol in one cycle; `Skip` excludes it.
#[derive(Clone, Copy, Debug, PartialEq, Eq, Structural)]
pub enum AllocationPriority {
    High,
    Medium,
    Low,
    Skip,
}

/// Overall posture of the allocation plan.
#[derive(Clone, Copy, Debug, PartialEq, Eq, Structural)]
pub enum PortfolioStrategy {
    Balanced,
    Aggressive,
    Conservative,
}

/// Funds and priority given to one symbol for the current cycle.
///
/// `allocated_balance` is in notional units, `weight` in basis points of the
/// total (0..=10000), `max_amount_override` in quantity units.
#[derive(Clone, Debug)]
pub struct SymbolAllocation {
    pub symbol: String,
    pub allocated_balance: u64,
    pub weight: u32,
    pub priority: AllocationPriority,
    pub max_amount_override: Option<u64>,
}

/// Output of the allocation provider: one entry per symbol plus the overall
/// posture; `total_available` is in notional units.
#[derive(Clone, Debug)]
pub struct PortfolioAllocation {
    pub allocations: Vec<SymbolAllocation>,
    pub total_available: u64,
    pub strategy: PortfolioStrategy,
    pub reasoning: String,
}

// ===== Position and trade results =====

/// Direction of an open position.
#[derive(Clone, Copy, Debug, PartialEq, Eq, Structural)]
pub enum PositionSide {
    Long,
    Short,
}

/// An open position: amount in quantity units, entry price in price units,
/// unrealized profit in notional units (may be negative).
#[derive(Clone, Copy, Debug, PartialEq, Eq, Structural)]
pub struct Position {
    pub side: PositionSide,
    pub amount: u64,
    pub entry_price: u64,
    pub unrealized_pnl: i64,
}

/// What an executed cycle did for one symbol.
#[derive(Clone, Copy, Debug, PartialEq, Eq, Structural)]
pub enum TradeAction {
    OpenLong,
    CloseLong,
    OpenShort,
    CloseShort,
    Hold,
}

impl TradeAction {
    /// The action's name, as written into trade records and logs.
    pub fn label(&self) -> (r: &'static str)
        ensures
            r@ == match self {
                TradeAction::OpenLong => "OpenLong"@,
                TradeAction::CloseLong => "CloseLong"@,
                TradeAction::OpenShort => "OpenShort"@,
                TradeAction::CloseShort => "CloseShort"@,
                TradeAction::Hold => "Hold"@,
            },
    {
        match self {
            TradeAction::OpenLong => "OpenLong",
            TradeAction::CloseLong => "CloseLong",
            TradeAction::OpenShort => "OpenShort",
            TradeAction::CloseShort => "CloseShort",
            TradeAction::Hold => "Hold",
        }
    }
}

/// Record of one symbol's outcome in one cycle: price in price units, amount
/// in quantity units, realized profit (for closes) in notional units.
///
/// `order_details` carries the exchange's acknowledgement, or the error text
/// of a failed submission.
#[derive(Clone, Debug)]
pub struct TradeResult {
    pub symbol: String,
    pub action: TradeAction,
    pub price: u64,
    pub amount: u64,
    pub timestamp: i64,
    pub reason: String,
    pub pnl: Option<i128>,
    pub order_details: Option<String>,
}

} // verus!
