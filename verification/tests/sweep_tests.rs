use solar_dispatch::calendar::{Date, DateTime};
use solar_dispatch::records::UsageRecord;
use solar_dispatch::sweep::{find_min_cost_configuration, SweepResult};

fn rec(import_milli_kwh: u64, export_milli_kwh: u64) -> UsageRecord {
    UsageRecord {
        stamp: DateTime { date: Date { year: 2024, month: 7, day: 14 }, hour: 0 },
        import_milli_kwh,
        export_milli_kwh,
    }
}

// With no records there is no grid exchange, so the cheapest configuration
// is the smallest fixed cost: capacity 16/26 (junking with no new panels,
// 1500 $, 3% amortized) and no battery.
#[test]
fn empty_year_picks_smallest_fixed_cost() {
    let result = find_min_cost_configuration(&Vec::new());
    assert_eq!(
        result,
        SweepResult { capacity_num: 16, battery_kwh: 0, total_cost_micro: 45_000_000 },
    );
}

// With heavy constant consumption and strong reference exports, more solar
// capacity pays for itself: the sweep must leave the minimum numerator.
#[test]
fn heavy_usage_prefers_more_capacity() {
    // 240 days: 2 kWh import every hour, 2 kWh of reference export.
    let data: Vec<UsageRecord> = (0..24 * 240).map(|_| rec(2_000, 2_000)).collect();
    let result = find_min_cost_configuration(&data);
    assert!(result.capacity_num > 16);
    // The winner really beats the cheapest-fixed-cost configuration.
    assert!(result.total_cost_micro < 45_000_000 + 24 * 240 * 2_000 * 450);
}

// Alternating surplus and shortfall hours make a battery pay for itself:
// each cycle it shifts energy worth 0.45 $/kWh that would otherwise earn
// only the 0.04 $/kWh export credit.
#[test]
fn alternating_hours_prefer_a_battery() {
    let mut data: Vec<UsageRecord> = Vec::new();
    for _ in 0..100 {
        data.push(rec(0, 26_000));
        data.push(rec(20_000, 0));
    }
    let result = find_min_cost_configuration(&data);
    assert!(result.battery_kwh > 0);
}
