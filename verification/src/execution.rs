//! Turning a final trade signal and the current position into the exact
//! market orders to submit, and building the per-symbol trade record from
//! the submission's outcome.
//!
//! Submitting the orders is I/O and happens outside this crate; the planner
//! here decides everything else: which orders, in which direction, the
//! realized profit of a close, and the add-position cap.

use vstd::prelude::*;

use crate::constraints::MAX_UNITS;
use crate::types::Position;
use crate::types::PositionSide;
use crate::types::Signal;
use crate::types::TradeAction;
use crate::types::TradeResult;

verus! {

/// Which way a market order trades.
#[derive(Clone, Copy, Debug, PartialEq, Eq, Structural)]
pub enum OrderSide {
    Buy,
    Sell,
}

/// One market order to submit: direction, the position leg it acts on, and
/// the quantity in quantity units.
#[derive(Clone, Copy, Debug, PartialEq, Eq, Structural)]
pub struct OrderRequest {
    pub side: OrderSide,
    pub position_side: PositionSide,
    pub quantity: u64,
}

/// What one decided signal amounts to.
#[derive(Clone, Debug)]
pub enum ExecutionPlan {
    /// A `Hold` signal: nothing to submit.
    NoAction,
    /// Adding to the open position would exceed the position cap: nothing to
    /// submit; the fields report the standing amount and what the addition
    /// would have totalled.
    LimitReached { current_amount: u64, new_total: u64 },
    /// Orders to submit, in order, with the resulting action label and the
    /// realized profit of the closed leg, if one is closed.
    Trade { orders: Vec<OrderRequest>, action: TradeAction, pnl: Option<i128> },
}

/// Realized profit of closing `p` at `execution_price`, in notional units:
/// positive when the market moved with the position.
pub open spec fn spec_close_pnl(p: Position, execution_price: int) -> int {
    match p.side {
        PositionSide::Long => (execution_price - p.entry_price) * p.amount,
        PositionSide::Short => (p.entry_price - execution_price) * p.amount,
    }
}

/// Plans the orders for one decided signal.
///
/// A `Buy` against a short position (or `Sell` against a long) closes the
/// standing leg in full and opens the opposite one; a `Buy`/`Sell` in the
/// direction already held adds to it, unless the combined amount would
/// exceed `max_position`; with no position it opens one; `Hold` does
/// nothing.
pub fn plan_decision(
    signal: Signal,
    current_position: &Option<Position>,
    execution_price: u64,
    trade_amount: u64,
    max_position: u64,
) -> (r: ExecutionPlan)
    requires
        execution_price <= MAX_UNITS,
        trade_amount <= MAX_UNITS,
        current_position matches Some(p) ==> p.amount <= MAX_UNITS && p.entry_price <= MAX_UNITS,
    ensures
        signal is Hold <==> r is NoAction,
        signal is Buy && current_position is None ==> (r matches ExecutionPlan::Trade {
            orders,
            action,
            pnl,
        } && orders@ =~= seq![
            OrderRequest {
                side: OrderSide::Buy,
                position_side: PositionSide::Long,
                quantity: trade_amount,
            },
        ] && action == TradeAction::OpenLong && pnl is None),
        signal is Sell && current_position is None ==> (r matches ExecutionPlan::Trade {
            orders,
            action,
            pnl,
        } && orders@ =~= seq![
            OrderRequest {
                side: OrderSide::Sell,
                position_side: PositionSide::Short,
                quantity: trade_amount,
            },
        ] && action == TradeAction::OpenShort && pnl is None),
        current_position matches Some(p) ==> {
            &&& signal is Buy && p.side == PositionSide::Short ==> (r
                matches ExecutionPlan::Trade { orders, action, pnl } && orders@ =~= seq![
                OrderRequest {
                    side: OrderSide::Buy,
                    position_side: PositionSide::Short,
                    quantity: p.amount,
                },
                OrderRequest {
                    side: OrderSide::Buy,
                    position_side: PositionSide::Long,
                    quantity: trade_amount,
                },
            ] && action == TradeAction::OpenLong && pnl == Some(
                spec_close_pnl(*p, execution_price as int) as i128,
            ))
            &&& signal is Buy && p.side == PositionSide::Long ==> if p.amount + trade_amount
                > max_position {
                r matches ExecutionPlan::LimitReached { current_amount, new_total }
                    && current_amount == p.amount && new_total == p.amount + trade_amount
            } else {
                r matches ExecutionPlan::Trade { orders, action, pnl } && orders@ =~= seq![
                    OrderRequest {
                        side: OrderSide::Buy,
                        position_side: PositionSide::Long,
                        quantity: trade_amount,
                    },
                ] && action == TradeAction::OpenLong && pnl is None
            }
            &&& signal is Sell && p.side == PositionSide::Long ==> (r
                matches ExecutionPlan::Trade { orders, action, pnl } && orders@ =~= seq![
                OrderRequest {
                    side: OrderSide::Sell,
                    position_side: PositionSide::Long,
                    quantity: p.amount,
                },
                OrderRequest {
                    side: OrderSide::Sell,
                    position_side: PositionSide::Short,
                    quantity: trade_amount,
                },
            ] && action == TradeAction::OpenShort && pnl == Some(
                spec_close_pnl(*p, execution_price as int) as i128,
            ))
            &&& signal is Sell && p.side == PositionSide::Short ==> if p.amount + trade_amount
                > max_position {
                r matches ExecutionPlan::LimitReached { current_amount, new_total }
                    && current_amount == p.amount && new_total == p.amount + trade_amount
            } else {
                r matches ExecutionPlan::Trade { orders, action, pnl } && orders@ =~= seq![
                    OrderRequest {
                        side: OrderSide::Sell,
                        position_side: PositionSide::Short,
                        quantity: trade_amount,
                    },
                ] && action == TradeAction::OpenShort && pnl is None
            }
        },
{
    match signal {
        Signal::Hold => ExecutionPlan::NoAction,
        Signal::Buy => {
            match current_position {
                None => {
                    let mut orders: Vec<OrderRequest> = Vec::new();
                    orders.push(
                        OrderRequest {
                            side: OrderSide::Buy,
                            position_side: PositionSide::Long,
                            quantity: trade_amount,
                        },
                    );
                    ExecutionPlan::Trade { orders, action: TradeAction::OpenLong, pnl: None }
                },
                Some(pos) => {
                    if pos.side == PositionSide::Short {
                        let mut orders: Vec<OrderRequest> = Vec::new();
                        orders.push(
                            OrderRequest {
                                side: OrderSide::Buy,
                                position_side: PositionSide::Short,
                                quantity: pos.amount,
                            },
                        );
                        orders.push(
                            OrderRequest {
                                side: OrderSide::Buy,
                                position_side: PositionSide::Long,
                                quantity: trade_amount,
                            },
                        );
                        let pnl = close_pnl(pos, execution_price);
                        ExecutionPlan::Trade {
                            orders,
                            action: TradeAction::OpenLong,
                            pnl: Some(pnl),
                        }
                    } else {
                        if pos.amount + trade_amount > max_position {
                            ExecutionPlan::LimitReached {
                                current_amount: pos.amount,
                                new_total: pos.amount + trade_amount,
                            }
                        } else {
                            let mut orders: Vec<OrderRequest> = Vec::new();
                            orders.push(
                                OrderRequest {
                                    side: OrderSide::Buy,
                                    position_side: PositionSide::Long,
                                    quantity: trade_amount,
                                },
                            );
                            ExecutionPlan::Trade {
                                orders,
                                action: TradeAction::OpenLong,
                                pnl: None,
                            }
                        }
                    }
                },
            }
        },
        Signal::Sell => {
            match current_position {
                None => {
                    let mut orders: Vec<OrderRequest> = Vec::new();
                    orders.push(
                        OrderRequest {
                            side: OrderSide::Sell,
                            position_side: PositionSide::Short,
                            quantity: trade_amount,
                        },
                    );
                    ExecutionPlan::Trade { orders, action: TradeAction::OpenShort, pnl: None }
                },
                Some(pos) => {
                    if pos.side == PositionSide::Long {
                        let mut orders: Vec<OrderRequest> = Vec::new();
                        orders.push(
                            OrderRequest {
                                side: OrderSide::Sell,
                                position_side: PositionSide::Long,
                                quantity: pos.amount,
                            },
                        );
                        orders.push(
                            OrderRequest {
                                side: OrderSide::Sell,
                                position_side: PositionSide::Short,
                                quantity: trade_amount,
                            },
                        );
                        let pnl = close_pnl(pos, execution_price);
                        ExecutionPlan::Trade {
                            orders,
                            action: TradeAction::OpenShort,
                            pnl: Some(pnl),
                        }
                    } else {
                        if pos.amount + trade_amount > max_position {
                            ExecutionPlan::LimitReached {
                                current_amount: pos.amount,
                                new_total: pos.amount + trade_amount,
                            }
                        } else {
                            let mut orders: Vec<OrderRequest> = Vec::new();
                            orders.push(
                                OrderRequest {
                                    side: OrderSide::Sell,
                                    position_side: PositionSide::Short,
                                    quantity: trade_amount,
                                },
                            );
                            ExecutionPlan::Trade {
                                orders,
                                action: TradeAction::OpenShort,
                                pnl: None,
                            }
                        }
                    }
                },
            }
        },
    }
}

/// Realized profit of closing `p` at `execution_price`.
fn close_pnl(p: &Position, execution_price: u64) -> (r: i128)
    requires
        p.amount <= MAX_UNITS,
        p.entry_price <= MAX_UNITS,
        execution_price <= MAX_UNITS,
    ensures
        r == spec_close_pnl(*p, execution_price as int),
{
    proof {
        assert((p.entry_price as int - execution_price as int) * (p.amount as int) <= (MAX_UNITS
            as int) * (MAX_UNITS as int) && (p.entry_price as int - execution_price as int) * (
        p.amount as int) >= -((MAX_UNITS as int) * (MAX_UNITS as int)) && (execution_price as int
            - p.entry_price as int) * (p.amount as int) <= (MAX_UNITS as int) * (MAX_UNITS as int)
            && (execution_price as int - p.entry_price as int) * (p.amount as int) >= -((MAX_UNITS
            as int) * (MAX_UNITS as int))) by (nonlinear_arith)
            requires
                0 <= p.amount <= MAX_UNITS,
                0 <= p.entry_price <= MAX_UNITS,
                0 <= execution_price <= MAX_UNITS,
        ;
    }
    match p.side {
        PositionSide::Long => (execution_price as i128 - p.entry_price as i128) * (
        p.amount as i128),
        PositionSide::Short => (p.entry_price as i128 - execution_price as i128) * (
        p.amount as i128),
    }
}

/// Record for a cycle that submits nothing: a `Hold` signal or a plan the
/// position cap blocked.
pub fn hold_result(symbol: String, reason: String, price: u64, timestamp: i64) -> (r: TradeResult)
    ensures
        r.symbol == symbol,
        r.action == TradeAction::Hold,
        r.price == price,
        r.amount == 0,
        r.timestamp == timestamp,
        r.reason == reason,
        r.pnl is None,
        r.order_details is None,
{
    TradeResult {
        symbol,
        action: TradeAction::Hold,
        price,
        amount: 0,
        timestamp,
        reason,
        pnl: None,
        order_details: None,
    }
}

/// Record for a submitted trade, carrying the exchange's acknowledgement
/// text.
pub fn executed_result(
    symbol: String,
    reason: String,
    action: TradeAction,
    price: u64,
    amount: u64,
    pnl: Option<i128>,
    timestamp: i64,
    order_details: String,
) -> (r: TradeResult)
    ensures
        r.symbol == symbol,
        r.action == action,
        r.price == price,
        r.amount == amount,
        r.timestamp == timestamp,
        r.reason == reason,
        r.pnl == pnl,
        r.order_details matches Some(d) && d == order_details,
{
    TradeResult {
        symbol,
        action,
        price,
        amount,
        timestamp,
        reason,
        pnl,
        order_details: Some(order_details),
    }
}

/// Record for a failed submission: a zero-amount `Hold` with the error
/// attached, so one symbol's failure is still recorded without aborting the
/// others.
pub fn failed_trade_result(symbol: String, price: u64, timestamp: i64, error: String) -> (r:
    TradeResult)
    ensures
        r.symbol == symbol,
        r.action == TradeAction::Hold,
        r.price == price,
        r.amount == 0,
        r.timestamp == timestamp,
        r.reason@ == error@,
        r.pnl is None,
        r.order_details matches Some(d) && d@ == error@,
{
    let reason = error.clone();
    TradeResult {
        symbol,
        action: TradeAction::Hold,
        price,
        amount: 0,
        timestamp,
        reason,
        pnl: None,
        order_details: Some(error),
    }
}

/// The exchange's business code for "the position mode is already the
/// requested one", which counts as success.
pub const ALREADY_IN_REQUESTED_MODE: i64 = -4059;

/// Whether a position-mode change counts as success: either the request
/// succeeded outright, or the exchange rejected it only because the mode was
/// already set.
pub fn dual_mode_change_ok(http_ok: bool, error_code: Option<i64>) -> (r: bool)
    ensures
        r <==> (http_ok || error_code == Some(ALREADY_IN_REQUESTED_MODE)),
{
    if http_ok {
        true
    } else {
        match error_code {
            Some(code) => code == ALREADY_IN_REQUESTED_MODE,
            None => false,
        }
    }
}

} // verus!
