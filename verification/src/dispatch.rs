//! Dispatch simulator: hour-by-hour battery charge/discharge and grid
//! exchange over a year of usage records, producing the total annual cost
//! (amortized installation cost plus net grid cost) of one configuration.
//!
//! Money is held in micro-dollars, so the grid price (0.45 $/kWh) and the
//! grid credit (0.04 $/kWh) are the exact integers 450 and 40 per milli-kWh,
//! and the 3% annual cost-of-capital rate is 30 000 micro-dollars per
//! dollar of one-time cost.
use vstd::prelude::*;

use vstd::arithmetic::div_mod::lemma_div_nonincreasing;
use vstd::arithmetic::mul::lemma_mul_upper_bound;
use crate::capacity::{
    cost_of_getting_to_capacity, spec_capacity_cost, CapacityRatio, MAX_CAPACITY_PART,
};
use crate::records::{UsageRecord, MAX_HOUR_ENERGY_MILLI_KWH, MAX_RECORD_COUNT};

verus! {

/// Price of grid energy, in micro-dollars per milli-kWh (0.45 $/kWh).
pub const GRID_COST_MICRO_PER_MILLI_KWH: i64 = 450;

/// Credit for energy sent to the grid, in micro-dollars per milli-kWh
/// (0.04 $/kWh).
pub const GRID_CREDIT_MICRO_PER_MILLI_KWH: i64 = 40;

/// Annualized share of a one-time cost: 3% of it per year, in micro-dollars
/// per dollar.
pub const ANNUAL_RATE_MICRO_PER_DOLLAR: i64 = 30_000;

/// Annualized cost of battery storage: 3% of 1000 $/kWh, in micro-dollars
/// per kWh.
pub const BATTERY_ANNUAL_COST_MICRO_PER_KWH: i64 = 30_000_000;

/// Existing panel count the simulator prices capacity changes against.
pub const SIMULATED_OLD_PANELS: u64 = 26;

/// Largest capacity-multiplier numerator the simulator accepts.
pub const MAX_CAPACITY_NUM: u64 = 1024;

/// Largest battery the simulator accepts, in kWh.
pub const MAX_BATTERY_KWH: u64 = 100_000;

/// Hourly solar production at capacity `a`, in milli-kWh, rounded down.
pub open spec fn production_milli_kwh(a: CapacityRatio, export_milli_kwh: int) -> int {
    a.num * export_milli_kwh / (a.den as int)
}

/// Hourly net production (surplus when nonnegative, shortfall when
/// negative) of one record.
pub open spec fn net_production(a: CapacityRatio, rec: UsageRecord) -> int {
    production_milli_kwh(a, rec.export_milli_kwh as int) - rec.import_milli_kwh
}

/// One simulated hour: shortfalls drain the battery first and buy the rest
/// from the grid; surpluses fill the battery first and sell the rest.  The
/// pair is (battery charge in milli-kWh, variable grid cost so far in
/// micro-dollars).
pub open spec fn sim_step(
    state: (int, int),
    a: CapacityRatio,
    cap_milli: int,
    rec: UsageRecord,
) -> (int, int) {
    let net = net_production(a, rec);
    if net < 0 {
        let needed = -net;
        if state.0 >= needed {
            (state.0 - needed, state.1)
        } else {
            (0, state.1 + (needed - state.0) * GRID_COST_MICRO_PER_MILLI_KWH)
        }
    } else {
        let room = cap_milli - state.0;
        if net <= room {
            (state.0 + net, state.1)
        } else {
            (cap_milli, state.1 - (net - room) * GRID_CREDIT_MICRO_PER_MILLI_KWH)
        }
    }
}

/// Battery charge and variable grid cost after the first `n` hours,
/// starting from an empty battery.
pub open spec fn sim_state(
    records: Seq<UsageRecord>,
    a: CapacityRatio,
    cap_milli: int,
    n: int,
) -> (int, int)
    decreases n,
{
    if n <= 0 {
        (0, 0)
    } else {
        sim_step(sim_state(records, a, cap_milli, n - 1), a, cap_milli, records[n - 1])
    }
}

/// Annualized fixed cost of a configuration, in micro-dollars: 3% of the
/// one-time panel cost and 3% of the battery's 1000 $/kWh install cost.
pub open spec fn spec_amortized_fixed_cost(a: CapacityRatio, battery_kwh: int) -> int {
    ANNUAL_RATE_MICRO_PER_DOLLAR * spec_capacity_cost(a, SIMULATED_OLD_PANELS as int)
        + BATTERY_ANNUAL_COST_MICRO_PER_KWH * battery_kwh
}

/// Total annual cost of one configuration, in micro-dollars: amortized
/// fixed cost plus the simulated variable grid cost; negative values are a
/// net credit.
pub open spec fn spec_annual_cost(
    records: Seq<UsageRecord>,
    a: CapacityRatio,
    battery_kwh: int,
) -> int {
    spec_amortized_fixed_cost(a, battery_kwh) + sim_state(
        records,
        a,
        1000 * battery_kwh,
        records.len() as int,
    ).1
}

/// Precondition shared by the simulator's callers: a well-formed capacity
/// fraction within the sweep's reach and per-record energies within bounds.
pub open spec fn sim_inputs_ok(
    records: Seq<UsageRecord>,
    a: CapacityRatio,
    battery_kwh: int,
) -> bool {
    &&& a.wf()
    &&& a.num <= MAX_CAPACITY_NUM
    &&& a.den <= MAX_CAPACITY_PART
    &&& 0 <= battery_kwh <= MAX_BATTERY_KWH
    &&& records.len() <= MAX_RECORD_COUNT
    &&& forall|j: int|
        0 <= j < records.len() ==> records[j].import_milli_kwh <= MAX_HOUR_ENERGY_MILLI_KWH
            && records[j].export_milli_kwh <= MAX_HOUR_ENERGY_MILLI_KWH
}

/// Total annual cost, in micro-dollars, of running capacity `a` with a
/// `battery_kwh` battery against the given year of hourly records.  Pure:
/// the result is a function of the arguments alone, so two calls on equal
/// inputs return equal values.
pub fn annual_cost(usage_data: &Vec<UsageRecord>, a: CapacityRatio, battery_kwh: u64) -> (total: i64)
    requires
        sim_inputs_ok(usage_data@, a, battery_kwh as int),
    ensures
        total == spec_annual_cost(usage_data@, a, battery_kwh as int),
{
    let panel_install_cost = cost_of_getting_to_capacity(a, SIMULATED_OLD_PANELS);
    let mut total_cost: i64 = ANNUAL_RATE_MICRO_PER_DOLLAR * panel_install_cost
        + BATTERY_ANNUAL_COST_MICRO_PER_KWH * (battery_kwh as i64);
    let ghost fixed = spec_amortized_fixed_cost(a, battery_kwh as int);
    let cap_milli: u64 = 1000 * battery_kwh;
    let mut battery_charge: u64 = 0;
    let n = usage_data.len();
    let mut i: usize = 0;
    while i < n
        invariant
            n == usage_data@.len(),
            sim_inputs_ok(usage_data@, a, battery_kwh as int),
            i <= n,
            cap_milli == 1000 * battery_kwh,
            fixed == spec_amortized_fixed_cost(a, battery_kwh as int),
            -900_003_000_000_000_000 <= fixed <= 900_003_000_000_000_000,
            battery_charge == sim_state(usage_data@, a, cap_milli as int, i as int).0,
            battery_charge <= cap_milli,
            total_cost == fixed + sim_state(usage_data@, a, cap_milli as int, i as int).1,
            fixed - i * 9_000_000_000_000 <= total_cost <= fixed + i * 90_000_000_000,
        decreases n - i,
    {
        let record = &usage_data[i];
        proof {
            lemma_mul_upper_bound(
                a.num as int,
                MAX_CAPACITY_NUM as int,
                record.export_milli_kwh as int,
                MAX_HOUR_ENERGY_MILLI_KWH as int,
            );
            lemma_div_nonincreasing((a.num * record.export_milli_kwh) as int, a.den as int);
            vstd::arithmetic::div_mod::lemma_div_pos_is_pos(
                (a.num * record.export_milli_kwh) as int,
                a.den as int,
            );
        }
        let production: u64 = a.num * record.export_milli_kwh / a.den;
        let consumption: u64 = record.import_milli_kwh;
        if production < consumption {
            let energy_needed = consumption - production;
            if battery_charge >= energy_needed {
                battery_charge = battery_charge - energy_needed;
            } else {
                let grid_consumption = energy_needed - battery_charge;
                total_cost = total_cost + (grid_consumption as i64) * GRID_COST_MICRO_PER_MILLI_KWH;
                battery_charge = 0;
            }
        } else {
            let excess_production = production - consumption;
            let charge_room = cap_milli - battery_charge;
            if excess_production <= charge_room {
                battery_charge = battery_charge + excess_production;
            } else {
                battery_charge = cap_milli;
                let to_grid = excess_production - charge_room;
                total_cost = total_cost - (to_grid as i64) * GRID_CREDIT_MICRO_PER_MILLI_KWH;
            }
        }
        i = i + 1;
    }
    total_cost
}

/// Battery bounds invariant: after every simulated hour the battery charge
/// lies between empty and the battery's capacity, whatever the records
/// hold.
pub proof fn lemma_battery_charge_bounds(
    records: Seq<UsageRecord>,
    a: CapacityRatio,
    cap_milli: int,
    n: int,
)
    requires
        cap_milli >= 0,
    ensures
        0 <= sim_state(records, a, cap_milli, n).0 <= cap_milli,
    decreases n,
{
    if n > 0 {
        lemma_battery_charge_bounds(records, a, cap_milli, n - 1);
    }
}

/// Sum of the first `n` hourly net productions.
pub open spec fn net_production_sum(records: Seq<UsageRecord>, a: CapacityRatio, n: int) -> int
    decreases n,
{
    if n <= 0 {
        0
    } else {
        net_production_sum(records, a, n - 1) + net_production(a, records[n - 1])
    }
}

/// Partial sums of nonnegative net productions grow with the prefix.
proof fn lemma_net_production_sum_mono(records: Seq<UsageRecord>, a: CapacityRatio, m: int, n: int)
    requires
        0 <= m <= n,
        forall|i: int| 0 <= i < n ==> net_production(a, records[i]) >= 0,
    ensures
        net_production_sum(records, a, m) <= net_production_sum(records, a, n),
    decreases n - m,
{
    if m < n {
        lemma_net_production_sum_mono(records, a, m, n - 1);
    }
}

/// When production covers consumption every hour and the whole yearly
/// surplus fits in the battery, the simulation just accumulates the surplus
/// and never touches the grid.
proof fn lemma_surplus_fits_simulation(
    records: Seq<UsageRecord>,
    a: CapacityRatio,
    cap_milli: int,
    n: int,
)
    requires
        0 <= n,
        forall|i: int| 0 <= i < n ==> net_production(a, records[i]) >= 0,
        net_production_sum(records, a, n) <= cap_milli,
    ensures
        sim_state(records, a, cap_milli, n) == (net_production_sum(records, a, n), 0int),
    decreases n,
{
    if n > 0 {
        lemma_net_production_sum_mono(records, a, n - 1, n);
        lemma_surplus_fits_simulation(records, a, cap_milli, n - 1);
    }
}

/// Monotonic-credit law: when production covers consumption every hour and
/// the whole yearly surplus already fits in the smaller battery, enlarging
/// the battery raises the total annual cost by no more than the added
/// amortized battery cost.
pub proof fn lemma_battery_monotonic_credit(
    records: Seq<UsageRecord>,
    a: CapacityRatio,
    b1: int,
    b2: int,
)
    requires
        0 <= b1 <= b2,
        forall|i: int| 0 <= i < records.len() ==> net_production(a, records[i]) >= 0,
        net_production_sum(records, a, records.len() as int) <= 1000 * b1 || b1 == b2,
    ensures
        spec_annual_cost(records, a, b2) - spec_annual_cost(records, a, b1)
            <= BATTERY_ANNUAL_COST_MICRO_PER_KWH * (b2 - b1),
{
    let n = records.len() as int;
    if net_production_sum(records, a, n) <= 1000 * b1 {
        lemma_surplus_fits_simulation(records, a, 1000 * b1, n);
        lemma_surplus_fits_simulation(records, a, 1000 * b2, n);
    }
}

} // verus!
