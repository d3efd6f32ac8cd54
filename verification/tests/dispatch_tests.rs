use solar_dispatch::calendar::{Date, DateTime};
use solar_dispatch::capacity::CapacityRatio;
use solar_dispatch::dispatch::annual_cost;
use solar_dispatch::records::UsageRecord;

fn rec(import_milli_kwh: u64, export_milli_kwh: u64) -> UsageRecord {
    UsageRecord {
        stamp: DateTime { date: Date { year: 2024, month: 7, day: 14 }, hour: 0 },
        import_milli_kwh,
        export_milli_kwh,
    }
}

fn one() -> CapacityRatio {
    CapacityRatio { num: 26, den: 26 }
}

// Scenario: one record importing 10 kWh with no export, capacity 1.0, no
// battery.  The whole shortfall is bought from the grid: the amortized
// fixed cost (3% of the 5000 $ relocation) plus 10 kWh at 0.45 $/kWh,
// in micro-dollars.
#[test]
fn single_record_all_from_grid() {
    let data = vec![rec(10_000, 0)];
    let total = annual_cost(&data, one(), 0);
    assert_eq!(total, 150_000_000 + 10_000 * 450);
}

// Identical inputs give identical outputs: the simulator carries no state
// between runs.
#[test]
fn annual_cost_is_deterministic() {
    let data = vec![rec(10_000, 0), rec(0, 8_000), rec(5_000, 1_000)];
    let first = annual_cost(&data, one(), 5);
    let second = annual_cost(&data, one(), 5);
    assert_eq!(first, second);
}

// A surplus fills the battery up to its capacity; only the rest is sold.
#[test]
fn surplus_fills_battery_before_selling() {
    // 10 kWh surplus against a 5 kWh battery: 5 kWh sold at 0.04 $/kWh.
    let data = vec![rec(0, 10_000)];
    let total = annual_cost(&data, one(), 5);
    let fixed = 150_000_000 + 5 * 30_000_000;
    assert_eq!(total, fixed - 5_000 * 40);
}

// A shortfall drains the battery before buying from the grid, and the
// battery never goes below empty.
#[test]
fn shortfall_drains_battery_before_buying() {
    // Hour 1: 6 kWh surplus charges the 10 kWh battery to 6 kWh.
    // Hour 2: 8 kWh shortfall drains those 6 kWh and buys 2 kWh.
    let data = vec![rec(0, 6_000), rec(8_000, 0)];
    let total = annual_cost(&data, one(), 10);
    let fixed = 150_000_000 + 10 * 30_000_000;
    assert_eq!(total, fixed + 2_000 * 450);
}

// The battery never exceeds its capacity: after an overfilling surplus, a
// shortfall can only draw the capacity, not the whole surplus.
#[test]
fn battery_charge_stays_within_capacity() {
    // Hour 1: 9 kWh surplus against a 5 kWh battery: 4 kWh sold, charge 5.
    // Hour 2: 7 kWh shortfall: 5 kWh from the battery, 2 kWh bought.
    let data = vec![rec(0, 9_000), rec(7_000, 0)];
    let total = annual_cost(&data, one(), 5);
    let fixed = 150_000_000 + 5 * 30_000_000;
    assert_eq!(total, fixed - 4_000 * 40 + 2_000 * 450);
}

// Monotonic-credit check: with hourly production covering consumption and
// the yearly surplus already fitting in the smaller battery, a bigger
// battery costs exactly its own added amortization more.
#[test]
fn bigger_battery_adds_only_its_amortization() {
    // Total surplus 4 kWh, fitting the 5 kWh battery.
    let data = vec![rec(0, 3_000), rec(1_000, 2_000)];
    let small = annual_cost(&data, one(), 5);
    let large = annual_cost(&data, one(), 10);
    assert_eq!(large - small, 5 * 30_000_000);
}

// Production scales with the capacity multiplier, rounded down per hour.
#[test]
fn production_scales_with_capacity() {
    // a = 18/26 on 1.3 kWh of export: 18 * 1300 / 26 = 900 milli-kWh of
    // production against 900 milli-kWh of consumption: nothing bought or
    // sold; the fixed cost of a = 18/26 is 3% of 2900 $ (junking with one
    // new panel).
    let data = vec![rec(900, 1_300)];
    let total = annual_cost(&data, CapacityRatio { num: 18, den: 26 }, 0);
    assert_eq!(total, 87_000_000);
}
