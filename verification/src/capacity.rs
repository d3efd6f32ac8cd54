//! Capacity-cost model: the one-time cost of reaching a target solar
//! capacity, choosing between relocating the existing panels and junking
//! them in favour of new, more efficient ones.
//!
//! The capacity multiplier is an exact integer fraction, and the new-panel
//! efficiency factor of 2.5 enters the arithmetic as the fraction 5/2, so
//! every branch is decided by exact integer comparisons.
use vstd::prelude::*;

use vstd::arithmetic::div_mod::{lemma_fundamental_div_mod, lemma_mod_bound};
use vstd::arithmetic::mul::{lemma_mul_is_distributive_add, lemma_mul_upper_bound};

verus! {

/// Cost to move the existing panels back, in dollars.
pub const PUT_BACK_OLD_PANELS_COST_DOLLARS: i64 = 5000;

/// Cost to junk the existing panels, in dollars.
pub const JUNK_OLD_PANELS_COST_DOLLARS: i64 = 1500;

/// Cost of one new panel, in dollars.
pub const NEW_PANEL_COST_DOLLARS: i64 = 1400;

/// Panel count of the original full-array deployment.
pub const BASELINE_PANEL_COUNT: u64 = 16;

/// Bound on the capacity fraction's parts and the panel count accepted by
/// the cost model; keeps all dollar arithmetic far inside `i64`.
pub const MAX_CAPACITY_PART: u64 = 100_000;

/// Desired solar capacity as a multiple `num/den` of the current capacity.
#[derive(Clone, Copy, PartialEq, Eq, Structural, Debug)]
pub struct CapacityRatio {
    pub num: u64,
    pub den: u64,
}

impl CapacityRatio {
    pub open spec fn wf(self) -> bool {
        self.den >= 1
    }
}

/// Ceiling of `n / d` for a positive divisor, over Euclidean division.
pub open spec fn ceil_div(n: int, d: int) -> int {
    if n % d == 0 {
        n / d
    } else {
        n / d + 1
    }
}

/// New panels needed if the old array is junked and new panels (2.5 times
/// as efficient) alone must reach `a` times the baseline-array capacity:
/// `ceil((a * old_panels - BASELINE_PANEL_COUNT) / 2.5)`.  Negative when the
/// target sits below the baseline by whole panels.
pub open spec fn panels_if_all_new(a: CapacityRatio, old_panels: int) -> int {
    ceil_div(2 * (a.num * old_panels - BASELINE_PANEL_COUNT * a.den), 5 * a.den)
}

/// New panels needed on top of the relocated old array when `a > 1`:
/// `ceil((a - 1) * old_panels / 2.5)`.
pub open spec fn panels_for_addition(a: CapacityRatio, old_panels: int) -> int {
    ceil_div(2 * ((a.num - a.den) * old_panels), 5 * a.den)
}

/// One-time cost, in dollars, of reaching capacity `a`: the cheaper (by
/// strict comparison, first option kept on ties) of the branch-dependent
/// alternatives.
pub open spec fn spec_capacity_cost(a: CapacityRatio, old_panels: int) -> int {
    let junk_and_new = 1500 + 1400 * panels_if_all_new(a, old_panels);
    if a.num <= a.den {
        if 5000 < junk_and_new {
            5000
        } else {
            junk_and_new
        }
    } else {
        let move_and_add = 5000 + 1400 * panels_for_addition(a, old_panels);
        if move_and_add < junk_and_new {
            move_and_add
        } else {
            junk_and_new
        }
    }
}

/// How a capacity target is reached.
#[derive(Clone, Copy, PartialEq, Eq, Structural, Debug)]
pub enum CapacityPlan {
    /// Move the existing panels back; no new panels.
    MoveBack,
    /// Junk the existing panels and install only new ones.
    JunkAndReplace,
    /// Move the existing panels back and add new ones beside them.
    MoveBackAndAdd,
}

/// The branch `spec_capacity_cost` settles on.
pub open spec fn spec_capacity_plan(a: CapacityRatio, old_panels: int) -> CapacityPlan {
    let junk_and_new = 1500 + 1400 * panels_if_all_new(a, old_panels);
    if a.num <= a.den {
        if 5000 < junk_and_new {
            CapacityPlan::MoveBack
        } else {
            CapacityPlan::JunkAndReplace
        }
    } else {
        let move_and_add = 5000 + 1400 * panels_for_addition(a, old_panels);
        if move_and_add < junk_and_new {
            CapacityPlan::MoveBackAndAdd
        } else {
            CapacityPlan::JunkAndReplace
        }
    }
}

/// Ceiling division of nonnegative machine integers.
fn ceil_div_u64(n: u64, d: u64) -> (r: u64)
    requires
        d >= 1,
        n < u64::MAX,
    ensures
        r == ceil_div(n as int, d as int),
        r <= n + 1,
{
    proof {
        vstd::arithmetic::div_mod::lemma_div_nonincreasing(n as int, d as int);
        vstd::arithmetic::div_mod::lemma_div_pos_is_pos(n as int, d as int);
    }
    if n % d == 0 {
        n / d
    } else {
        n / d + 1
    }
}

/// Ceiling division of a negated nonnegative numerator is the negated floor
/// division.
proof fn lemma_ceil_div_neg(x: int, d: int)
    requires
        x >= 0,
        d >= 1,
    ensures
        ceil_div(-x, d) == -(x / d),
{
    lemma_fundamental_div_mod(x, d);
    lemma_fundamental_div_mod(-x, d);
    lemma_mod_bound(x, d);
    lemma_mod_bound(-x, d);
    let q = x / d;
    let r = x % d;
    let q2 = (-x) / d;
    let r2 = (-x) % d;
    lemma_mul_is_distributive_add(d, q, q2);
    assert(d * (q + q2) == -(r + r2));
    if q + q2 >= 1 {
        vstd::arithmetic::mul::lemma_mul_inequality(1, q + q2, d);
        vstd::arithmetic::mul::lemma_mul_is_commutative(q + q2, d);
        assert(false);
    }
    if q + q2 <= -2 {
        vstd::arithmetic::mul::lemma_mul_inequality(q + q2, -2, d);
        vstd::arithmetic::mul::lemma_mul_is_commutative(q + q2, d);
        assert(false);
    }
    if q + q2 == 0 {
        assert(r + r2 == 0);
    } else {
        assert(q + q2 == -1);
        assert(r + r2 == d);
        assert(r != 0 && r2 != 0);
    }
}

/// Signed count of new panels if the old array is junked; callers combine
/// it with the per-panel price.
fn panels_if_all_new_count(a: CapacityRatio, old_panels: u64) -> (r: i64)
    requires
        a.wf(),
        a.num <= MAX_CAPACITY_PART,
        a.den <= MAX_CAPACITY_PART,
        old_panels <= MAX_CAPACITY_PART,
    ensures
        r == panels_if_all_new(a, old_panels as int),
        -20_000_000_001 <= r <= 20_000_000_001,
{
    proof {
        lemma_mul_upper_bound(
            a.num as int,
            MAX_CAPACITY_PART as int,
            old_panels as int,
            MAX_CAPACITY_PART as int,
        );
    }
    let lhs: u64 = a.num * old_panels;
    let rhs: u64 = BASELINE_PANEL_COUNT * a.den;
    let five_den: u64 = 5 * a.den;
    if lhs >= rhs {
        let count = ceil_div_u64(2 * (lhs - rhs), five_den);
        count as i64
    } else {
        let q = (2 * (rhs - lhs)) / five_den;
        proof {
            lemma_ceil_div_neg(2 * (rhs - lhs) as int, five_den as int);
            vstd::arithmetic::div_mod::lemma_div_nonincreasing(
                2 * (rhs - lhs) as int,
                five_den as int,
            );
            vstd::arithmetic::div_mod::lemma_div_pos_is_pos(
                2 * (rhs - lhs) as int,
                five_den as int,
            );
        }
        -(q as i64)
    }
}

/// One-time cost, in dollars, of physically reaching capacity `a` with
/// `old_panels` existing panels: the cheaper of relocating the old array or
/// junking it for new panels (plus added panels when `a > 1`).
pub fn cost_of_getting_to_capacity(a: CapacityRatio, old_panels: u64) -> (cost: i64)
    requires
        a.wf(),
        a.num <= MAX_CAPACITY_PART,
        a.den <= MAX_CAPACITY_PART,
        old_panels <= MAX_CAPACITY_PART,
    ensures
        cost == spec_capacity_cost(a, old_panels as int),
        -30_000_000_000_000 <= cost <= 30_000_000_000_000,
{
    let ifjunk = panels_if_all_new_count(a, old_panels);
    let junk_and_new: i64 = JUNK_OLD_PANELS_COST_DOLLARS + NEW_PANEL_COST_DOLLARS * ifjunk;
    if a.num <= a.den {
        if PUT_BACK_OLD_PANELS_COST_DOLLARS < junk_and_new {
            PUT_BACK_OLD_PANELS_COST_DOLLARS
        } else {
            junk_and_new
        }
    } else {
        proof {
            lemma_mul_upper_bound(
                (a.num - a.den) as int,
                MAX_CAPACITY_PART as int,
                old_panels as int,
                MAX_CAPACITY_PART as int,
            );
        }
        let additional: u64 = (a.num - a.den) * old_panels;
        let five_den: u64 = 5 * a.den;
        let add_panels = ceil_div_u64(2 * additional, five_den);
        let move_and_add: i64 = PUT_BACK_OLD_PANELS_COST_DOLLARS + NEW_PANEL_COST_DOLLARS * (
        add_panels as i64);
        if move_and_add < junk_and_new {
            move_and_add
        } else {
            junk_and_new
        }
    }
}

/// The branch the cost model settles on, with the count of new panels that
/// branch buys (zero for a pure relocation); used for reporting.
pub fn capacity_plan(a: CapacityRatio, old_panels: u64) -> (r: (CapacityPlan, i64))
    requires
        a.wf(),
        a.num <= MAX_CAPACITY_PART,
        a.den <= MAX_CAPACITY_PART,
        old_panels <= MAX_CAPACITY_PART,
    ensures
        r.0 == spec_capacity_plan(a, old_panels as int),
        r.0 == CapacityPlan::MoveBack ==> r.1 == 0,
        r.0 == CapacityPlan::JunkAndReplace ==> r.1 == panels_if_all_new(a, old_panels as int),
        r.0 == CapacityPlan::MoveBackAndAdd ==> r.1 == panels_for_addition(a, old_panels as int),
{
    let ifjunk = panels_if_all_new_count(a, old_panels);
    let junk_and_new: i64 = JUNK_OLD_PANELS_COST_DOLLARS + NEW_PANEL_COST_DOLLARS * ifjunk;
    if a.num <= a.den {
        if PUT_BACK_OLD_PANELS_COST_DOLLARS < junk_and_new {
            (CapacityPlan::MoveBack, 0)
        } else {
            (CapacityPlan::JunkAndReplace, ifjunk)
        }
    } else {
        proof {
            lemma_mul_upper_bound(
                (a.num - a.den) as int,
                MAX_CAPACITY_PART as int,
                old_panels as int,
                MAX_CAPACITY_PART as int,
            );
        }
        let additional: u64 = (a.num - a.den) * old_panels;
        let five_den: u64 = 5 * a.den;
        let add_panels = ceil_div_u64(2 * additional, five_den);
        let move_and_add: i64 = PUT_BACK_OLD_PANELS_COST_DOLLARS + NEW_PANEL_COST_DOLLARS * (
        add_panels as i64);
        if move_and_add < junk_and_new {
            (CapacityPlan::MoveBackAndAdd, add_panels as i64)
        } else {
            (CapacityPlan::JunkAndReplace, ifjunk)
        }
    }
}

} // verus!
