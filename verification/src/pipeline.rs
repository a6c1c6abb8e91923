//! Per-cycle orchestration rules: which symbols enter the execution phase,
//! how the operator's configured strategy overrides the allocation plan's
//! tag, where a symbol's analysis takes its position from, and the
//! post-join merge of per-symbol outcomes into the shared cycle cache.
//!
//! Symbols are addressed by their index in the configured symbol list; the
//! cache holds one entry per configured symbol.  Only the orchestrator,
//! single-threaded after all per-symbol tasks have joined, writes the
//! cache: the merge here is that write.

use vstd::prelude::*;

use crate::account::AccountInfo;
use crate::constraints::SymbolConstraints;
use crate::types::Position;
use crate::types::AllocationPriority;
use crate::types::PortfolioAllocation;
use crate::types::PortfolioStrategy;
use crate::types::SymbolAllocation;

verus! {

/// One symbol's cycle-cache entry: what the last cycle left behind.
///
/// `usable` says whether `position` may replace a fresh query in the next
/// cycle's analysis; it is set only when the previous cycle observed no
/// trade for the symbol or obtained a fresh post-trade snapshot.
#[derive(Clone, Copy, Debug)]
pub struct CacheEntry {
    pub account: Option<AccountInfo>,
    pub position: Option<Position>,
    pub usable: bool,
}

/// What one symbol's execution task reports back to the orchestrator.
#[derive(Clone, Copy, Debug)]
pub struct SymbolCycleResult {
    /// Whether an order was actually placed.
    pub traded: bool,
    /// A rejected quantity resolution is a normal "no trade this cycle"
    /// outcome: the symbol's prior cache entry stands untouched for the
    /// next cycle, and the snapshots below are ignored.
    pub keep_prior_entry: bool,
    /// Fresh account snapshot, when one was (re)obtained.
    pub account_snapshot: Option<AccountInfo>,
    /// Fresh position snapshot, when one was (re)obtained.
    pub position_snapshot: Option<Position>,
}

/// The outcome of a cycle whose quantity resolution was rejected: nothing
/// traded, and the symbol's prior cache entry is left untouched by the
/// merge.
pub fn resolution_rejected_result() -> (r: SymbolCycleResult)
    ensures
        !r.traded,
        r.keep_prior_entry,
        r.account_snapshot is None,
        r.position_snapshot is None,
{
    SymbolCycleResult {
        traded: false,
        keep_prior_entry: true,
        account_snapshot: None,
        position_snapshot: None,
    }
}

/// Where a symbol's analysis takes its position from.
#[derive(Clone, Copy, Debug)]
pub enum PositionSource {
    /// The cache entry is usable: reuse its position, no query.
    UseCached { position: Option<Position> },
    /// No usable entry: query the position directly.
    QueryFresh,
}

/// Analysis position policy: only a cache entry marked usable may replace a
/// fresh query.
pub fn analysis_position_source(entry: &Option<CacheEntry>) -> (r: PositionSource)
    ensures
        entry matches Some(e) ==> (e.usable ==> (r matches PositionSource::UseCached { position }
            && position == e.position)),
        (match entry {
            Some(e) => !e.usable,
            None => true,
        }) ==> r is QueryFresh,
{
    match entry {
        Some(e) => if e.usable {
            PositionSource::UseCached { position: e.position }
        } else {
            PositionSource::QueryFresh
        },
        None => PositionSource::QueryFresh,
    }
}

/// Entry left for a symbol that analysed but did not execute this cycle:
/// position kept (and usable exactly when known), account unknown.
pub open spec fn spec_analysis_only_entry(position: Option<Position>) -> CacheEntry {
    CacheEntry { account: None, position, usable: position is Some }
}

/// Builds the cache entry for a symbol excluded from execution this cycle.
pub fn analysis_only_entry(position: Option<Position>) -> (r: CacheEntry)
    ensures
        r == spec_analysis_only_entry(position),
{
    CacheEntry { account: None, position, usable: position.is_some() }
}

/// Whether a symbol runs the execution phase, and with what; or what its
/// cache entry is reset to when it is excluded.
#[derive(Clone, Copy, Debug)]
pub enum Phase3Admission {
    /// Run: trade at most `max_amount` (quantity units) against
    /// `allocated_balance` (notional units).
    Execute { max_amount: u64, allocated_balance: u64 },
    /// Excluded this cycle; write `entry` for the symbol.
    SkipSymbol { entry: CacheEntry },
}

/// The admission decision for one symbol, given its allocation, its constraint
/// set (if any is known), the position its analysis saw and the configured
/// per-symbol position cap.
pub open spec fn spec_phase3_admission(
    alloc: SymbolAllocation,
    constraints: Option<SymbolConstraints>,
    analysis_position: Option<Position>,
    default_max_position: u64,
) -> Phase3Admission {
    if alloc.priority == AllocationPriority::Skip {
        Phase3Admission::SkipSymbol { entry: spec_analysis_only_entry(analysis_position) }
    } else {
        match constraints {
            None => Phase3Admission::SkipSymbol {
                entry: CacheEntry { account: None, position: None, usable: false },
            },
            Some(c) => {
                if alloc.allocated_balance == 0 {
                    Phase3Admission::SkipSymbol { entry: spec_analysis_only_entry(analysis_position) }
                } else {
                    let base = match alloc.max_amount_override {
                        Some(o) => o,
                        None => default_max_position,
                    };
                    let max_amount = match c.max_qty {
                        Some(mq) => if mq < base {
                            mq
                        } else {
                            base
                        },
                        None => base,
                    };
                    if max_amount == 0 {
                        Phase3Admission::SkipSymbol {
                            entry: spec_analysis_only_entry(analysis_position),
                        }
                    } else if c.min_qty > max_amount {
                        Phase3Admission::SkipSymbol {
                            entry: spec_analysis_only_entry(analysis_position),
                        }
                    } else {
                        Phase3Admission::Execute {
                            max_amount,
                            allocated_balance: alloc.allocated_balance,
                        }
                    }
                }
            },
        }
    }
}

/// Decides whether a symbol is admitted to the execution phase.
///
/// A symbol is excluded when its priority is `Skip`, its constraint set is
/// unknown, its allocated budget is zero, its quantity ceiling (the
/// override or the configured cap, further capped by the exchange's
/// `max_qty`) is zero, or that ceiling cannot even fit the exchange's
/// minimum quantity.  An excluded symbol's cache entry keeps the analysed
/// position -- usable exactly when one is known -- except that a symbol
/// without constraints is fully reset.
pub fn phase3_admission(
    alloc: &SymbolAllocation,
    constraints: &Option<SymbolConstraints>,
    analysis_position: &Option<Position>,
    default_max_position: u64,
) -> (r: Phase3Admission)
    ensures
        r == spec_phase3_admission(*alloc, *constraints, *analysis_position, default_max_position),
{
    if alloc.priority == AllocationPriority::Skip {
        return Phase3Admission::SkipSymbol { entry: analysis_only_entry(*analysis_position) };
    }
    match constraints {
        None => Phase3Admission::SkipSymbol {
            entry: CacheEntry { account: None, position: None, usable: false },
        },
        Some(c) => {
            if alloc.allocated_balance == 0 {
                return Phase3Admission::SkipSymbol { entry: analysis_only_entry(*analysis_position) };
            }
            let base = match alloc.max_amount_override {
                Some(o) => o,
                None => default_max_position,
            };
            let max_amount = match c.max_qty {
                Some(mq) => if mq < base {
                    mq
                } else {
                    base
                },
                None => base,
            };
            if max_amount == 0 {
                Phase3Admission::SkipSymbol { entry: analysis_only_entry(*analysis_position) }
            } else if c.min_qty > max_amount {
                Phase3Admission::SkipSymbol { entry: analysis_only_entry(*analysis_position) }
            } else {
                Phase3Admission::Execute { max_amount, allocated_balance: alloc.allocated_balance }
            }
        },
    }
}

/// The operator's configured strategy wins over the plan's declared tag:
/// allocations are kept, only the tag is overridden; returns whether the
/// plan disagreed (a warning is then recorded by the caller).
pub fn apply_strategy_override(plan: &mut PortfolioAllocation, desired: PortfolioStrategy) -> (
    warned: bool)
    ensures
        final(plan).strategy == desired,
        final(plan).allocations == old(plan).allocations,
        final(plan).total_available == old(plan).total_available,
        final(plan).reasoning == old(plan).reasoning,
        warned <==> old(plan).strategy != desired,
{
    let warned = plan.strategy != desired;
    plan.strategy = desired;
    warned
}

/// What one symbol's execution task came to: its index in the configured
/// symbol list, the position its analysis saw, and its result or the error
/// that ended it.
#[derive(Debug)]
pub struct SymbolOutcome {
    pub symbol_id: usize,
    pub analysis_position: Option<Position>,
    pub result: Result<SymbolCycleResult, String>,
}

/// The cache entry an executed symbol ends the cycle with: fresh snapshots
/// where obtained, else the analysed position; usable when anything is
/// known.  A rejected resolution ("no trade this cycle") leaves the prior
/// entry `prev` untouched; a failed symbol is fully reset, forcing fresh
/// queries next cycle.
pub open spec fn spec_outcome_entry(prev: CacheEntry, o: SymbolOutcome) -> CacheEntry {
    match o.result {
        Ok(res) => if res.keep_prior_entry {
            prev
        } else {
            CacheEntry {
                account: res.account_snapshot,
                position: if res.position_snapshot is Some {
                    res.position_snapshot
                } else {
                    o.analysis_position
                },
                usable: res.account_snapshot is Some || res.position_snapshot is Some
                    || o.analysis_position is Some,
            }
        },
        Err(_) => CacheEntry { account: None, position: None, usable: false },
    }
}

/// Whether an outcome traded.
pub open spec fn spec_outcome_traded(o: SymbolOutcome) -> bool {
    o.result matches Ok(res) && res.traded
}

/// Merges the joined per-symbol outcomes into the cycle cache, atomically
/// from the tasks' point of view: the orchestrator alone writes, after all
/// tasks finished.  Each symbol's new entry is a function of that symbol's
/// own outcome and its own prior entry alone; symbols without an outcome,
/// and symbols whose resolution was rejected, keep their entry.  Returns
/// whether any symbol traded.
pub fn merge_cycle_results(cache: &mut Vec<CacheEntry>, outcomes: &Vec<SymbolOutcome>) -> (
    any_traded: bool)
    requires
        forall|i: int, j: int|
            0 <= i < j < outcomes@.len() ==> outcomes@[i].symbol_id != outcomes@[j].symbol_id,
        forall|i: int| 0 <= i < outcomes@.len() ==> outcomes@[i].symbol_id < old(cache)@.len(),
    ensures
        final(cache)@.len() == old(cache)@.len(),
        forall|i: int|
            0 <= i < outcomes@.len() ==> final(cache)@[outcomes@[i].symbol_id as int]
                == spec_outcome_entry(
                old(cache)@[outcomes@[i].symbol_id as int],
                #[trigger] outcomes@[i],
            ),
        forall|k: int|
            0 <= k < old(cache)@.len() && (forall|i: int|
                0 <= i < outcomes@.len() ==> (#[trigger] outcomes@[i].symbol_id) != k) ==> final(
            cache)@[k] == old(cache)@[k],
        any_traded <==> exists|i: int|
            0 <= i < outcomes@.len() && spec_outcome_traded(#[trigger] outcomes@[i]),
{
    let mut any_traded: bool = false;
    let mut j: usize = 0;
    while j < outcomes.len()
        invariant
            0 <= j <= outcomes@.len(),
            cache@.len() == old(cache)@.len(),
            forall|i: int, i2: int|
                0 <= i < i2 < outcomes@.len() ==> outcomes@[i].symbol_id
                    != outcomes@[i2].symbol_id,
            forall|i: int| 0 <= i < outcomes@.len() ==> outcomes@[i].symbol_id < cache@.len(),
            forall|i: int|
                0 <= i < j ==> cache@[outcomes@[i].symbol_id as int] == spec_outcome_entry(
                    old(cache)@[outcomes@[i].symbol_id as int],
                    #[trigger] outcomes@[i],
                ),
            forall|k: int|
                0 <= k < cache@.len() && (forall|i: int|
                    0 <= i < j ==> (#[trigger] outcomes@[i].symbol_id) != k) ==> cache@[k] == old(
                cache)@[k],
            any_traded <==> exists|i: int|
                0 <= i < j && spec_outcome_traded(#[trigger] outcomes@[i]),
        decreases outcomes@.len() - j,
    {
        let o = &outcomes[j];
        proof {
            // This symbol was not written by an earlier iteration: the ids
            // are distinct, so its entry still equals its prior entry.
            assert(forall|i: int|
                0 <= i < j ==> (#[trigger] outcomes@[i].symbol_id) != o.symbol_id);
            assert(cache@[o.symbol_id as int] == old(cache)@[o.symbol_id as int]);
        }
        let keep_prior = match &o.result {
            Ok(res) => res.keep_prior_entry,
            Err(_) => false,
        };
        if !keep_prior {
            let entry = match &o.result {
                Ok(res) => CacheEntry {
                    account: res.account_snapshot,
                    position: if res.position_snapshot.is_some() {
                        res.position_snapshot
                    } else {
                        o.analysis_position
                    },
                    usable: res.account_snapshot.is_some() || res.position_snapshot.is_some()
                        || o.analysis_position.is_some(),
                },
                Err(_) => CacheEntry { account: None, position: None, usable: false },
            };
            proof {
                assert(entry == spec_outcome_entry(
                    old(cache)@[o.symbol_id as int],
                    outcomes@[j as int],
                ));
            }
            cache.set(o.symbol_id, entry);
        }
        let traded_here = match &o.result {
            Ok(res) => res.traded,
            Err(_) => false,
        };
        if traded_here {
            any_traded = true;
        }
        proof {
            assert(traded_here == spec_outcome_traded(outcomes@[j as int]));
        }
        j = j + 1;
    }
    any_traded
}

/// Failure isolation of the execution phase: the cache entry and traded
/// flag the cycle records for a symbol are a function of that symbol's own
/// outcome and its own prior entry alone.  Two cycles that agree on one
/// symbol's outcome and prior entry -- however the other symbols fared,
/// order submissions throwing included -- record the same entry and the
/// same traded flag for it; together with the merge's contract, one
/// symbol's exception can neither change nor drop another symbol's
/// recorded result.
pub proof fn lemma_phase3_isolation(
    prev1: CacheEntry,
    prev2: CacheEntry,
    outcomes1: Seq<SymbolOutcome>,
    outcomes2: Seq<SymbolOutcome>,
    i1: int,
    i2: int,
)
    requires
        0 <= i1 < outcomes1.len(),
        0 <= i2 < outcomes2.len(),
        outcomes1[i1] == outcomes2[i2],
        prev1 == prev2,
    ensures
        spec_outcome_entry(prev1, outcomes1[i1]) == spec_outcome_entry(prev2, outcomes2[i2]),
        spec_outcome_traded(outcomes1[i1]) == spec_outcome_traded(outcomes2[i2]),
{
}

} // verus!
