//! Order sizing: turning a suggested quantity, a per-symbol allocation and
//! the live price into a tradable quantity that satisfies the exchange's
//! quantization, floor and ceiling rules -- or a rejection when no quantity
//! can satisfy them all.
//!
//! Floors (`min_qty`, `min_notional`) and ceilings (the allocation, the
//! balance limit, `max_qty`) can conflict; the resolver raises first, then
//! re-caps, and rejects rather than violate a limit.

use vstd::prelude::*;

use crate::constraints::MAX_UNITS;
use crate::constraints::SymbolConstraints;
use crate::constraints::quantize_down;
use crate::constraints::quantize_up;
use crate::constraints::spec_quantize_down;
use crate::constraints::spec_quantize_up;

verus! {

/// The quantity ceiling for one symbol: the allocated maximum, further
/// capped by how many quantity units the allocated balance buys at `price`
/// whenever balance and price are positive.  A balance that buys less than
/// one quantity unit caps the ceiling to zero, and the resolver then
/// rejects: a limit is never silently exceeded.
pub open spec fn spec_effective_max(allocated_max: int, allocated_balance: int, price: int) -> int {
    if allocated_balance > 0 && price > 0 {
        let balance_limit = allocated_balance / price;
        if balance_limit < allocated_max {
            balance_limit
        } else {
            allocated_max
        }
    } else {
        allocated_max
    }
}

/// The quantity the resolver accepts, or `None` for a rejection.  The steps
/// mirror the resolution order: default a zero wish, cap, quantize down,
/// raise to the quantity floor, cap by `max_qty`, raise to the notional
/// floor, re-cap, and reject if a floor is still unmet.
pub open spec fn spec_adjust_quantity(
    desired: int,
    allocated_max: int,
    allocated_balance: int,
    price: int,
    c: SymbolConstraints,
) -> Option<int> {
    if allocated_max <= 0 {
        None
    } else {
        let eff = spec_effective_max(allocated_max, allocated_balance, price);
        let q0 = if desired > 0 {
            desired
        } else if c.min_qty >= c.step_size {
            c.min_qty as int
        } else {
            c.step_size as int
        };
        let q1 = if q0 > eff {
            eff
        } else {
            q0
        };
        let q2 = spec_quantize_down(q1, c.step_size as int);
        let q3 = if q2 < c.min_qty {
            spec_quantize_up(c.min_qty as int, c.step_size as int)
        } else {
            q2
        };
        let q4 = match c.max_qty {
            Some(mq) => if q3 > mq {
                spec_quantize_down(mq as int, c.step_size as int)
            } else {
                q3
            },
            None => q3,
        };
        let q5 = if c.min_notional > 0 && price > 0 {
            let required = spec_quantize_up(
                (c.min_notional + price - 1) / price,
                c.step_size as int,
            );
            if required > q4 {
                required
            } else {
                q4
            }
        } else {
            q4
        };
        let q6 = if q5 > eff {
            spec_quantize_down(eff, c.step_size as int)
        } else {
            q5
        };
        let q7 = match c.max_qty {
            Some(mq) => if q6 > mq {
                spec_quantize_down(mq as int, c.step_size as int)
            } else {
                q6
            },
            None => q6,
        };
        if q7 < c.min_qty {
            None
        } else if c.min_notional > 0 && price > 0 && q7 * price < c.min_notional {
            None
        } else if q7 <= 0 {
            None
        } else {
            Some(q7)
        }
    }
}

/// Resolves the tradable quantity for one order.
///
/// `desired` is the provider-suggested quantity, `allocated_max` the
/// per-symbol quantity ceiling, `allocated_balance` the funds assigned to
/// the symbol (notional units), `price` the execution price.  Returns the
/// accepted quantity in quantity units, or `None` when no quantity satisfies
/// every rule ("no trade this cycle", not an error).
#[verifier::rlimit(60)]
pub fn adjust_trade_quantity(
    desired: u64,
    allocated_max: u64,
    allocated_balance: u64,
    price: u64,
    c: &SymbolConstraints,
) -> (r: Option<u64>)
    requires
        desired <= MAX_UNITS,
        allocated_max <= MAX_UNITS,
        allocated_balance <= MAX_UNITS,
        price <= MAX_UNITS,
        c.wf(),
    ensures
        match r {
            Some(q) => spec_adjust_quantity(
                desired as int,
                allocated_max as int,
                allocated_balance as int,
                price as int,
                *c,
            ) == Some(q as int),
            None => spec_adjust_quantity(
                desired as int,
                allocated_max as int,
                allocated_balance as int,
                price as int,
                *c,
            ) is None,
        },
{
    if allocated_max == 0 {
        return None;
    }
    let mut effective_max: u64 = allocated_max;
    if allocated_balance > 0 && price > 0 {
        let balance_limit: u64 = allocated_balance / price;
        if balance_limit < effective_max {
            effective_max = balance_limit;
        }
    }
    proof {
        assert(effective_max == spec_effective_max(
            allocated_max as int,
            allocated_balance as int,
            price as int,
        ));
        assert(effective_max <= allocated_max) by {
            if allocated_balance > 0 && price > 0 {
                assert(allocated_balance as int / price as int >= 0) by (nonlinear_arith)
                    requires
                        allocated_balance >= 0,
                        price > 0,
                ;
            }
        }
    }

    let mut qty: u64 = desired;
    if qty == 0 {
        qty = if c.min_qty >= c.step_size {
            c.min_qty
        } else {
            c.step_size
        };
    }
    if qty > effective_max {
        qty = effective_max;
    }
    qty = quantize_down(qty, c.step_size);
    if qty < c.min_qty {
        qty = quantize_up(c.min_qty, c.step_size);
    }
    if let Some(max_qty) = c.max_qty {
        if qty > max_qty {
            qty = quantize_down(max_qty, c.step_size);
        }
    }
    if c.min_notional > 0 && price > 0 {
        let raw_required: u64 = (c.min_notional + price - 1) / price;
        proof {
            assert(raw_required <= c.min_notional) by (nonlinear_arith)
                requires
                    price > 0,
                    c.min_notional > 0,
                    raw_required == (c.min_notional + price - 1) as int / price as int,
            ;
        }
        let required: u64 = quantize_up(raw_required, c.step_size);
        if required > qty {
            qty = required;
        }
    }
    if qty > effective_max {
        qty = quantize_down(effective_max, c.step_size);
    }
    if let Some(max_qty) = c.max_qty {
        if qty > max_qty {
            qty = quantize_down(max_qty, c.step_size);
        }
    }
    if qty < c.min_qty {
        return None;
    }
    if c.min_notional > 0 && price > 0 {
        proof {
            assert(qty <= MAX_UNITS);
            assert((qty as int) * (price as int) <= (MAX_UNITS as int) * (MAX_UNITS as int))
                by (nonlinear_arith)
                requires
                    0 <= qty <= MAX_UNITS,
                    0 <= price <= MAX_UNITS,
            ;
        }
        if (qty as u128) * (price as u128) < c.min_notional as u128 {
            return None;
        }
    }
    if qty == 0 {
        None
    } else {
        Some(qty)
    }
}

/// Rounding down stays on the step grid, at or under the input.
proof fn lemma_quantize_down_props(v: int, s: int)
    requires
        s > 0,
    ensures
        spec_quantize_down(v, s) % s == 0,
        spec_quantize_down(v, s) <= v,
        v >= 0 ==> spec_quantize_down(v, s) >= 0,
{
    assert((v / s) * s % s == 0 && (v / s) * s <= v && (v >= 0 ==> (v / s) * s >= 0))
        by (nonlinear_arith)
        requires
            s > 0,
    ;
}

/// Rounding up stays on the step grid, at or above the input, by less than
/// one step.
proof fn lemma_quantize_up_props(v: int, s: int)
    requires
        s > 0,
    ensures
        spec_quantize_up(v, s) % s == 0,
        spec_quantize_up(v, s) >= v,
        spec_quantize_up(v, s) < v + s,
{
    assert(((v + s - 1) / s) * s % s == 0 && ((v + s - 1) / s) * s >= v && ((v + s - 1) / s) * s
        < v + s) by (nonlinear_arith)
        requires
            s > 0,
    ;
}

/// Every accepted quantity satisfies the exchange rules it was resolved
/// against: it lies on the step grid (when a step is set), meets the
/// quantity floor, stays at or under the effective ceiling and the
/// exchange's `max_qty`, is positive, and its notional value meets the
/// notional floor (when one applies).
pub proof fn lemma_accepted_quantity_in_range(
    desired: int,
    allocated_max: int,
    allocated_balance: int,
    price: int,
    c: SymbolConstraints,
    q: int,
)
    requires
        spec_adjust_quantity(desired, allocated_max, allocated_balance, price, c) == Some(q),
    ensures
        c.step_size > 0 ==> q % (c.step_size as int) == 0,
        q >= c.min_qty,
        q <= spec_effective_max(allocated_max, allocated_balance, price),
        c.max_qty matches Some(mq) ==> q <= mq,
        c.min_notional > 0 && price > 0 ==> q * price >= c.min_notional,
        q > 0,
{
    let eff = spec_effective_max(allocated_max, allocated_balance, price);
    let q0 = if desired > 0 {
        desired
    } else if c.min_qty >= c.step_size {
        c.min_qty as int
    } else {
        c.step_size as int
    };
    let q1 = if q0 > eff {
        eff
    } else {
        q0
    };
    let q2 = spec_quantize_down(q1, c.step_size as int);
    let q3 = if q2 < c.min_qty {
        spec_quantize_up(c.min_qty as int, c.step_size as int)
    } else {
        q2
    };
    let q4 = match c.max_qty {
        Some(mq) => if q3 > mq {
            spec_quantize_down(mq as int, c.step_size as int)
        } else {
            q3
        },
        None => q3,
    };
    let q5 = if c.min_notional > 0 && price > 0 {
        let required = spec_quantize_up((c.min_notional + price - 1) / price, c.step_size as int);
        if required > q4 {
            required
        } else {
            q4
        }
    } else {
        q4
    };
    let q6 = if q5 > eff {
        spec_quantize_down(eff, c.step_size as int)
    } else {
        q5
    };
    let q7 = match c.max_qty {
        Some(mq) => if q6 > mq {
            spec_quantize_down(mq as int, c.step_size as int)
        } else {
            q6
        },
        None => q6,
    };
    assert(q == q7);
    if c.step_size > 0 {
        lemma_quantize_down_props(q1, c.step_size as int);
        lemma_quantize_up_props(c.min_qty as int, c.step_size as int);
        match c.max_qty {
            Some(mq) => lemma_quantize_down_props(mq as int, c.step_size as int),
            None => (),
        }
        if c.min_notional > 0 && price > 0 {
            lemma_quantize_up_props((c.min_notional + price - 1) / price, c.step_size as int);
        }
        lemma_quantize_down_props(eff, c.step_size as int);
        assert(q7 % (c.step_size as int) == 0);
    }
    if q5 > eff {
        if c.step_size > 0 {
            lemma_quantize_down_props(eff, c.step_size as int);
        }
        assert(q6 <= eff);
    }
    match c.max_qty {
        Some(mq) => {
            if q6 > mq {
                if c.step_size > 0 {
                    lemma_quantize_down_props(mq as int, c.step_size as int);
                }
                assert(q7 <= mq);
            }
        },
        None => (),
    }
}

} // verus!

