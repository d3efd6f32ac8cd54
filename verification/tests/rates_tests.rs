use solar_dispatch::calendar::{Date, DateTime};
use solar_dispatch::rates::cost_per_kwh;

fn dt(month: u8, hour: u8) -> DateTime {
    DateTime { date: Date { year: 2024, month, day: 10 }, hour }
}

#[test]
fn summer_peak_rate() {
    // 1 kWh at 0.616 $/kWh, in micro-dollars.
    assert_eq!(cost_per_kwh(1_000, &dt(7, 17)), 616_000);
}

#[test]
fn summer_part_peak_and_off_peak_rates() {
    assert_eq!(cost_per_kwh(1_000, &dt(8, 15)), 454_000);
    assert_eq!(cost_per_kwh(1_000, &dt(8, 23)), 454_000);
    assert_eq!(cost_per_kwh(1_000, &dt(8, 3)), 397_000);
}

#[test]
fn winter_rates() {
    assert_eq!(cost_per_kwh(1_000, &dt(1, 18)), 384_000);
    assert_eq!(cost_per_kwh(1_000, &dt(12, 22)), 362_000);
    assert_eq!(cost_per_kwh(2_000, &dt(11, 4)), 2 * 348_000);
}
