//! Choosing the authoritative position among the records the exchange
//! reports for one symbol.
//!
//! Hedge-mode accounts can report several records per symbol; a record whose
//! amount is below a small flat threshold counts as no position at all, and
//! among the rest the one with the larger amount is authoritative (the first
//! such record on a tie).  A negative reported amount is a short leg.

use vstd::prelude::*;

use crate::types::Position;
use crate::types::PositionSide;

verus! {

/// Magnitude of a reported amount.
pub open spec fn spec_abs(a: int) -> int {
    if a >= 0 {
        a
    } else {
        -a
    }
}

/// How the exchange labels the leg a record belongs to.
#[derive(Clone, Copy, Debug, PartialEq, Eq, Structural)]
pub enum ReportedSide {
    Long,
    Short,
    /// No usable label: the sign of the amount decides.
    Unspecified,
}

/// One raw position record as the exchange reports it: the amount is signed
/// (negative for a short leg), prices and profit in the crate's units.
#[derive(Clone, Debug)]
pub struct PositionRecord {
    pub symbol: String,
    pub position_side: ReportedSide,
    pub amount: i64,
    pub entry_price: u64,
    pub unrealized_pnl: i64,
}

/// Whether a record belongs to `symbol` and is large enough to count as an
/// open position.
pub open spec fn spec_record_eligible(
    rec: PositionRecord,
    symbol: Seq<char>,
    flat_threshold: int,
) -> bool {
    rec.symbol@ == symbol && spec_abs(rec.amount as int) >= flat_threshold
}

/// The position a record describes: side from the label, or from the sign
/// of the amount when the label is unusable.
pub open spec fn spec_position_of_record(rec: PositionRecord) -> Position {
    Position {
        side: match rec.position_side {
            ReportedSide::Long => PositionSide::Long,
            ReportedSide::Short => PositionSide::Short,
            ReportedSide::Unspecified => if rec.amount > 0 {
                PositionSide::Long
            } else {
                PositionSide::Short
            },
        },
        amount: spec_abs(rec.amount as int) as u64,
        entry_price: rec.entry_price,
        unrealized_pnl: rec.unrealized_pnl,
    }
}

/// The record the scan settles on: walking the records in order, an
/// eligible record replaces the current best only when its amount is
/// strictly larger.
pub open spec fn spec_select_position(
    records: Seq<PositionRecord>,
    symbol: Seq<char>,
    flat_threshold: int,
) -> Option<Position>
    decreases records.len(),
{
    if records.len() == 0 {
        None
    } else {
        let prev = spec_select_position(records.drop_last(), symbol, flat_threshold);
        let rec = records.last();
        if spec_record_eligible(rec, symbol, flat_threshold) {
            let cand = spec_position_of_record(rec);
            match prev {
                None => Some(cand),
                Some(best) => if cand.amount > best.amount {
                    Some(cand)
                } else {
                    Some(best)
                },
            }
        } else {
            prev
        }
    }
}

/// Selects the authoritative position for `symbol` from the exchange's raw
/// records, or `None` when the account is flat in it.
///
/// `flat_threshold` is the amount (in quantity units) under which a record
/// is treated as flat rather than as a microscopic open position.
pub fn select_position(
    records: &Vec<PositionRecord>,
    symbol: &String,
    flat_threshold: u64,
) -> (r: Option<Position>)
    requires
        forall|i: int| 0 <= i < records@.len() ==> records@[i].amount != i64::MIN,
    ensures
        r == spec_select_position(records@, symbol@, flat_threshold as int),
{
    let mut best: Option<Position> = None;
    let mut i: usize = 0;
    while i < records.len()
        invariant
            0 <= i <= records@.len(),
            forall|k: int| 0 <= k < records@.len() ==> records@[k].amount != i64::MIN,
            best == spec_select_position(records@.take(i as int), symbol@, flat_threshold as int),
        decreases records@.len() - i,
    {
        proof {
            assert(records@.take(i + 1).drop_last() =~= records@.take(i as int));
            assert(records@.take(i + 1).last() == records@[i as int]);
        }
        let rec = &records[i];
        let magnitude: u64 = if rec.amount >= 0 {
            rec.amount as u64
        } else {
            (-rec.amount) as u64
        };
        let matches_symbol: bool = rec.symbol == *symbol;
        proof {
            if matches_symbol {
                assert(rec.symbol@ == symbol@);
            }
        }
        if matches_symbol && magnitude >= flat_threshold {
            let side = match rec.position_side {
                ReportedSide::Long => PositionSide::Long,
                ReportedSide::Short => PositionSide::Short,
                ReportedSide::Unspecified => if rec.amount > 0 {
                    PositionSide::Long
                } else {
                    PositionSide::Short
                },
            };
            let candidate = Position {
                side,
                amount: magnitude,
                entry_price: rec.entry_price,
                unrealized_pnl: rec.unrealized_pnl,
            };
            let replace: bool = match best {
                None => true,
                Some(existing) => candidate.amount > existing.amount,
            };
            if replace {
                best = Some(candidate);
            }
        }
        i = i + 1;
    }
    proof {
        assert(records@.take(records@.len() as int) =~= records@);
    }
    best
}

/// The selected position really is the authoritative one: it stems from an
/// eligible record, and no eligible record reports a larger amount.  When
/// nothing is selected, no record was eligible.
pub proof fn lemma_selected_position_is_largest(
    records: Seq<PositionRecord>,
    symbol: Seq<char>,
    flat_threshold: int,
)
    ensures
        spec_select_position(records, symbol, flat_threshold) matches Some(p) ==> {
            &&& exists|i: int|
                0 <= i < records.len() && spec_record_eligible(records[i], symbol, flat_threshold)
                    && p == spec_position_of_record(#[trigger] records[i])
            &&& forall|i: int|
                0 <= i < records.len() && spec_record_eligible(
                    #[trigger] records[i],
                    symbol,
                    flat_threshold,
                ) ==> spec_abs(records[i].amount as int) <= p.amount
        },
        spec_select_position(records, symbol, flat_threshold) is None ==> forall|i: int|
            0 <= i < records.len() ==> !spec_record_eligible(
                #[trigger] records[i],
                symbol,
                flat_threshold,
            ),
    decreases records.len(),
{
    if records.len() > 0 {
        lemma_selected_position_is_largest(records.drop_last(), symbol, flat_threshold);
        assert(forall|i: int|
            0 <= i < records.len() - 1 ==> #[trigger] records[i] == records.drop_last()[i]);
        let rec = records.last();
        if spec_record_eligible(rec, symbol, flat_threshold) {
            assert(spec_position_of_record(rec).amount == spec_abs(rec.amount as int));
        }
    }
}

} // verus!
