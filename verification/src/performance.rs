//! Running account of realized performance: totals, win/loss counts, best
//! and worst trade, equity peak and maximum drawdown.
//!
//! Profits are in notional units.  Persisting the snapshot is I/O and
//! happens outside; the arithmetic is here.

use vstd::prelude::*;

use crate::types::TradeAction;
use crate::types::TradeResult;

verus! {

/// Bound on the running totals, leaving room for one more addition and for
/// a drawdown difference within `i128`.
pub const PNL_BOUND: i128 = 0x3FFF_FFFF_FFFF_FFFF_FFFF_FFFF_FFFF_FFFF;

/// Cumulative performance figures.
#[derive(Clone, Copy, Debug)]
pub struct PerformanceSnapshot {
    pub total_realized_pnl: i128,
    pub total_trades: u64,
    pub winning_trades: u64,
    pub losing_trades: u64,
    pub best_trade: Option<i128>,
    pub worst_trade: Option<i128>,
    pub equity_peak: i128,
    pub max_drawdown: i128,
    pub last_update: Option<i64>,
}

impl PerformanceSnapshot {
    /// The figures stay in the range the update arithmetic needs.
    pub open spec fn wf(self) -> bool {
        &&& -PNL_BOUND <= self.total_realized_pnl <= PNL_BOUND
        &&& 0 <= self.equity_peak <= PNL_BOUND
        &&& 0 <= self.max_drawdown <= 2 * PNL_BOUND
        &&& self.winning_trades <= self.total_trades
        &&& self.losing_trades <= self.total_trades
    }

    /// The all-zero starting snapshot.
    pub open spec fn spec_initial() -> PerformanceSnapshot {
        PerformanceSnapshot {
            total_realized_pnl: 0,
            total_trades: 0,
            winning_trades: 0,
            losing_trades: 0,
            best_trade: None,
            worst_trade: None,
            equity_peak: 0,
            max_drawdown: 0,
            last_update: None,
        }
    }
}

impl Default for PerformanceSnapshot {
    /// The all-zero starting snapshot.
    fn default() -> (r: PerformanceSnapshot)
        ensures
            r == PerformanceSnapshot::spec_initial(),
            r.wf(),
    {
        PerformanceSnapshot {
            total_realized_pnl: 0,
            total_trades: 0,
            winning_trades: 0,
            losing_trades: 0,
            best_trade: None,
            worst_trade: None,
            equity_peak: 0,
            max_drawdown: 0,
            last_update: None,
        }
    }
}

/// Accumulates trade outcomes into a [`PerformanceSnapshot`].
#[derive(Clone, Copy, Debug)]
pub struct PerformanceTracker {
    snapshot: PerformanceSnapshot,
}

impl Default for PerformanceTracker {
    /// A tracker holding the all-zero snapshot.
    fn default() -> (r: PerformanceTracker)
        ensures
            r@ == PerformanceSnapshot::spec_initial(),
            r@.wf(),
    {
        PerformanceTracker { snapshot: PerformanceSnapshot::default() }
    }
}

impl View for PerformanceTracker {
    type V = PerformanceSnapshot;

    closed spec fn view(&self) -> PerformanceSnapshot {
        self.snapshot
    }
}

impl PerformanceTracker {
    /// A tracker holding the all-zero snapshot.
    pub fn new() -> (r: PerformanceTracker)
        ensures
            r@ == PerformanceSnapshot::spec_initial(),
            r@.wf(),
    {
        PerformanceTracker::default()
    }

    /// The current figures.
    pub fn snapshot(&self) -> (r: &PerformanceSnapshot)
        ensures
            *r == self@,
    {
        &self.snapshot
    }

    /// Folds one trade record in.  A `Hold` record changes nothing and
    /// reports `false`; any other record counts as a trade, stamps
    /// `last_update` with `now`, and -- when it carries a realized profit
    /// -- moves the totals, the win/loss counts, the best/worst marks and
    /// the equity peak or drawdown exactly as stated.
    pub fn update(&mut self, trade: &TradeResult, now: i64) -> (counted: bool)
        requires
            old(self)@.wf(),
            old(self)@.total_trades < u64::MAX,
            trade.pnl matches Some(p) ==> -PNL_BOUND <= p <= PNL_BOUND && -PNL_BOUND <= old(self)@.total_realized_pnl + p <= PNL_BOUND,
        ensures
            final(self)@.wf(),
            counted <==> !(trade.action is Hold),
            trade.action is Hold ==> final(self)@ == old(self)@,
            !(trade.action is Hold) ==> {
                &&& final(self)@.total_trades == old(self)@.total_trades + 1
                &&& final(self)@.last_update == Some(now)
                &&& trade.pnl is None ==> {
                    &&& final(self)@.total_realized_pnl == old(self)@.total_realized_pnl
                    &&& final(self)@.winning_trades == old(self)@.winning_trades
                    &&& final(self)@.losing_trades == old(self)@.losing_trades
                    &&& final(self)@.best_trade == old(self)@.best_trade
                    &&& final(self)@.worst_trade == old(self)@.worst_trade
                    &&& final(self)@.equity_peak == old(self)@.equity_peak
                    &&& final(self)@.max_drawdown == old(self)@.max_drawdown
                }
                &&& trade.pnl matches Some(p) ==> {
                    &&& final(self)@.total_realized_pnl == old(self)@.total_realized_pnl + p
                    &&& final(self)@.best_trade == match old(self)@.best_trade {
                        None => Some(p),
                        Some(b) => Some(
                            if p > b {
                                p
                            } else {
                                b
                            },
                        ),
                    }
                    &&& final(self)@.worst_trade == match old(self)@.worst_trade {
                        None => Some(p),
                        Some(w) => Some(
                            if p < w {
                                p
                            } else {
                                w
                            },
                        ),
                    }
                    &&& final(self)@.winning_trades == old(self)@.winning_trades + (
                    if p > 0 {
                        1int
                    } else {
                        0int
                    })
                    &&& final(self)@.losing_trades == old(self)@.losing_trades + (
                    if p < 0 {
                        1int
                    } else {
                        0int
                    })
                    &&& {
                        let equity = old(self)@.total_realized_pnl + p;
                        if equity > old(self)@.equity_peak {
                            final(self)@.equity_peak == equity && final(self)@.max_drawdown == old(self)@.max_drawdown
                        } else {
                            final(self)@.equity_peak == old(self)@.equity_peak && final(self)@.max_drawdown == (
                            if old(self)@.equity_peak - equity > old(self)@.max_drawdown {
                                old(self)@.equity_peak - equity
                            } else {
                                old(self)@.max_drawdown as int
                            })
                        }
                    }
                }
            },
    {
        if matches!(trade.action, TradeAction::Hold) {
            return false;
        }
        self.snapshot.total_trades = self.snapshot.total_trades + 1;
        if let Some(pnl) = trade.pnl {
            self.snapshot.total_realized_pnl = self.snapshot.total_realized_pnl + pnl;
            self.snapshot.best_trade = match self.snapshot.best_trade {
                Some(best) => Some(
                    if pnl > best {
                        pnl
                    } else {
                        best
                    },
                ),
                None => Some(pnl),
            };
            self.snapshot.worst_trade = match self.snapshot.worst_trade {
                Some(worst) => Some(
                    if pnl < worst {
                        pnl
                    } else {
                        worst
                    },
                ),
                None => Some(pnl),
            };
            if pnl > 0 {
                self.snapshot.winning_trades = self.snapshot.winning_trades + 1;
            } else if pnl < 0 {
                self.snapshot.losing_trades = self.snapshot.losing_trades + 1;
            }
            let equity = self.snapshot.total_realized_pnl;
            if equity > self.snapshot.equity_peak {
                self.snapshot.equity_peak = equity;
            } else {
                let drawdown = self.snapshot.equity_peak - equity;
                if drawdown > self.snapshot.max_drawdown {
                    self.snapshot.max_drawdown = drawdown;
                }
            }
        }
        self.snapshot.last_update = Some(now);
        true
    }
}

} // verus!
