//! Exchange-imposed trading rules for one symbol and the quantization
//! primitives that align quantities and prices to them.
//!
//! A step (or tick) size of zero means "no quantization, pass-through".
//! All values are non-negative integers in fixed base units, so the
//! clamp-to-zero of each rounding rule holds by construction.

use vstd::prelude::*;

verus! {

/// Upper bound on every value (price, quantity, balance, notional) that the
/// sizing logic accepts, so that intermediate sums of two such values still
/// fit in a `u64`.
pub const MAX_UNITS: u64 = 0x7FFF_FFFF_FFFF_FFFF;

/// Trading rules of one symbol, fetched once at startup and immutable after.
///
/// `max_qty` is `None` when the exchange reports no upper bound.
#[derive(Clone, Copy, Debug)]
pub struct SymbolConstraints {
    pub step_size: u64,
    pub min_qty: u64,
    pub max_qty: Option<u64>,
    pub min_notional: u64,
    pub tick_size: u64,
}

impl SymbolConstraints {
    /// All fields are small enough for the sizing arithmetic to stay in range.
    pub open spec fn wf(self) -> bool {
        &&& self.step_size <= MAX_UNITS
        &&& self.min_qty <= MAX_UNITS
        &&& (self.max_qty matches Some(m) ==> m <= MAX_UNITS)
        &&& self.min_notional <= MAX_UNITS
        &&& self.tick_size <= MAX_UNITS
    }
}

/// Largest multiple of `step` that is at most `value`; `value` itself when
/// `step` is zero.
pub open spec fn spec_quantize_down(value: int, step: int) -> int {
    if step <= 0 {
        value
    } else {
        (value / step) * step
    }
}

/// Smallest multiple of `step` that is at least `value`; `value` itself when
/// `step` is zero.
pub open spec fn spec_quantize_up(value: int, step: int) -> int {
    if step <= 0 {
        value
    } else {
        ((value + step - 1) / step) * step
    }
}

/// Multiple of `tick` nearest to `price`, ties rounded up (half-up is the
/// deterministic tie-break this crate commits to); `price` itself when `tick`
/// is zero.
pub open spec fn spec_quantize_price(price: int, tick: int) -> int {
    if tick <= 0 {
        price
    } else {
        ((price + tick / 2) / tick) * tick
    }
}

/// Rounds `value` down to a multiple of `step`.  The result never exceeds
/// `value` and misses it by less than one step.
pub fn quantize_down(value: u64, step: u64) -> (r: u64)
    ensures
        r == spec_quantize_down(value as int, step as int),
        step == 0 ==> r == value,
        step > 0 ==> r <= value && value - r < step && r % step == 0,
{
    if step == 0 {
        value
    } else {
        let q: u64 = value / step;
        proof {
            assert(q * step <= value && value - q * step < step && (q * step) % (step as int)
                == 0) by (nonlinear_arith)
                requires
                    step > 0,
                    q == value as int / step as int,
            ;
        }
        q * step
    }
}

/// Rounds `value` up to a multiple of `step`.  The result is never below
/// `value` and exceeds it by less than one step.
pub fn quantize_up(value: u64, step: u64) -> (r: u64)
    requires
        value + step <= u64::MAX,
    ensures
        r == spec_quantize_up(value as int, step as int),
        step == 0 ==> r == value,
        step > 0 ==> r >= value && r - value < step && r % step == 0,
{
    if step == 0 {
        value
    } else {
        let q: u64 = (value + step - 1) / step;
        proof {
            assert(value <= q * step && q * step - value < step && (q * step) % (step as int)
                == 0) by (nonlinear_arith)
                requires
                    step > 0,
                    q == (value + step - 1) as int / step as int,
            ;
        }
        q * step
    }
}

/// Rounds `price` to the nearest multiple of `tick`, ties up.  The result is
/// the unique multiple of `tick` in the half-open window
/// `(price + tick/2 - tick, price + tick/2]`.
pub fn quantize_price(price: u64, tick_size: u64) -> (r: u64)
    requires
        price + tick_size <= u64::MAX,
    ensures
        r == spec_quantize_price(price as int, tick_size as int),
        tick_size == 0 ==> r == price,
        tick_size > 0 ==> r <= price + tick_size / 2 && price + tick_size / 2 < r + tick_size
            && r % tick_size == 0,
{
    if tick_size == 0 {
        price
    } else {
        let shifted: u64 = price + tick_size / 2;
        let q: u64 = shifted / tick_size;
        proof {
            assert(q * tick_size <= shifted && shifted - q * tick_size < tick_size && (q
                * tick_size) % (tick_size as int) == 0) by (nonlinear_arith)
                requires
                    tick_size > 0,
                    q == shifted as int / tick_size as int,
            ;
        }
        q * tick_size
    }
}

/// One rule record of the exchange's per-symbol filter list, already reduced
/// to the fields this crate consumes.
#[derive(Clone, Copy, Debug)]
pub enum SymbolFilter {
    /// Quantity rules: a `max_qty` of zero means "no upper bound".
    LotSize { min_qty: u64, max_qty: u64, step_size: u64 },
    /// Price alignment rule.
    PriceFilter { tick_size: u64 },
    /// Minimum notional value of an order.
    MinNotional { notional: u64 },
    /// A filter kind this crate does not consume.
    Other,
}

/// Constraints left by folding `filters` over `acc`: for each kind the last
/// filter of that kind wins.
pub open spec fn spec_fold_filters(acc: SymbolConstraints, filters: Seq<SymbolFilter>) -> SymbolConstraints
    decreases filters.len(),
{
    if filters.len() == 0 {
        acc
    } else {
        let rest = spec_fold_filters(acc, filters.drop_last());
        match filters.last() {
            SymbolFilter::LotSize { min_qty, max_qty, step_size } => SymbolConstraints {
                min_qty,
                max_qty: if max_qty > 0 {
                    Some(max_qty)
                } else {
                    None
                },
                step_size,
                ..rest
            },
            SymbolFilter::PriceFilter { tick_size } => SymbolConstraints { tick_size, ..rest },
            SymbolFilter::MinNotional { notional } => SymbolConstraints {
                min_notional: notional,
                ..rest
            },
            SymbolFilter::Other => rest,
        }
    }
}

/// The constraint set with every field absent: no quantization, no floors,
/// no ceilings.
pub open spec fn spec_unconstrained() -> SymbolConstraints {
    SymbolConstraints { step_size: 0, min_qty: 0, max_qty: None, min_notional: 0, tick_size: 0 }
}

/// Builds one symbol's constraint set from the filter list the exchange
/// reports for it.  Missing kinds default to zero ("unconstrained"); when a
/// kind occurs twice the later record wins; a reported `max_qty` of zero
/// means "no upper bound".
pub fn constraints_from_filters(filters: &Vec<SymbolFilter>) -> (r: SymbolConstraints)
    ensures
        r == spec_fold_filters(spec_unconstrained(), filters@),
{
    let mut acc = SymbolConstraints {
        step_size: 0,
        min_qty: 0,
        max_qty: None,
        min_notional: 0,
        tick_size: 0,
    };
    let mut i: usize = 0;
    while i < filters.len()
        invariant
            0 <= i <= filters.len(),
            acc == spec_fold_filters(spec_unconstrained(), filters@.take(i as int)),
        decreases filters.len() - i,
    {
        proof {
            assert(filters@.take(i + 1).drop_last() =~= filters@.take(i as int));
            assert(filters@.take(i + 1).last() == filters@[i as int]);
        }
        match filters[i] {
            SymbolFilter::LotSize { min_qty, max_qty, step_size } => {
                acc.min_qty = min_qty;
                acc.max_qty = if max_qty > 0 {
                    Some(max_qty)
                } else {
                    None
                };
                acc.step_size = step_size;
            },
            SymbolFilter::PriceFilter { tick_size } => {
                acc.tick_size = tick_size;
            },
            SymbolFilter::MinNotional { notional } => {
                acc.min_notional = notional;
            },
            SymbolFilter::Other => {},
        }
        i = i + 1;
    }
    proof {
        assert(filters@.take(filters@.len() as int) =~= filters@);
    }
    acc
}

} // verus!
