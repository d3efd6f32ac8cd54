use solar_dispatch::calendar::{Date, DateTime};
use solar_dispatch::impute_check::{find_duplicate_hours, find_missing_hours, generate_expected_hours};
use solar_dispatch::records::{
    add_ev_charging, drop_overlapping_tail, max_export_index, total_import_milli_kwh, UsageRecord,
};

fn dt(year: u32, month: u8, day: u8, hour: u8) -> DateTime {
    DateTime { date: Date { year, month, day }, hour }
}

fn rec(stamp: DateTime, import_milli_kwh: u64, export_milli_kwh: u64) -> UsageRecord {
    UsageRecord { stamp, import_milli_kwh, export_milli_kwh }
}

#[test]
fn ev_charging_adds_nine_kwh_at_seven_pm_before_cutoff() {
    let mut data = vec![
        rec(dt(2024, 10, 25, 19), 1_000, 0),
        rec(dt(2024, 10, 25, 18), 1_000, 0),
        rec(dt(2024, 10, 26, 19), 1_000, 0),
        rec(dt(2024, 10, 27, 19), 1_000, 0),
        rec(dt(2023, 12, 1, 19), 500, 0),
    ];
    add_ev_charging(&mut data);
    let imports: Vec<u64> = data.iter().map(|r| r.import_milli_kwh).collect();
    // Only 19:00 hours of days strictly before 2024-10-26 gain 9 kWh.
    assert_eq!(imports, vec![10_000, 1_000, 1_000, 1_000, 9_500]);
}

#[test]
fn overlapping_trailing_day_is_superseded() {
    let mut all = vec![
        rec(dt(2024, 5, 1, 0), 1, 0),
        rec(dt(2024, 5, 2, 0), 2, 0),
        rec(dt(2024, 5, 2, 1), 3, 0),
    ];
    drop_overlapping_tail(&mut all, &Date { year: 2024, month: 5, day: 2 });
    assert_eq!(all, vec![rec(dt(2024, 5, 1, 0), 1, 0)]);
}

#[test]
fn no_overlap_keeps_everything() {
    let mut all = vec![rec(dt(2024, 5, 1, 0), 1, 0), rec(dt(2024, 5, 2, 0), 2, 0)];
    drop_overlapping_tail(&mut all, &Date { year: 2024, month: 5, day: 3 });
    assert_eq!(all.len(), 2);
}

#[test]
fn import_total() {
    let data = vec![rec(dt(2024, 5, 1, 0), 1_500, 0), rec(dt(2024, 5, 1, 1), 2_500, 9_000)];
    assert_eq!(total_import_milli_kwh(&data), 4_000);
    assert_eq!(total_import_milli_kwh(&Vec::new()), 0);
}

#[test]
fn max_export_keeps_last_of_ties() {
    let data = vec![
        rec(dt(2024, 5, 1, 0), 0, 5_000),
        rec(dt(2024, 5, 1, 1), 0, 7_000),
        rec(dt(2024, 5, 1, 2), 0, 7_000),
        rec(dt(2024, 5, 1, 3), 0, 1_000),
    ];
    assert_eq!(max_export_index(&data), Some(2));
    assert_eq!(max_export_index(&Vec::new()), None);
}

#[test]
fn expected_hours_cover_every_hour_of_the_range() {
    let hours = generate_expected_hours(
        Date { year: 2024, month: 2, day: 28 },
        Date { year: 2024, month: 2, day: 29 },
    );
    assert_eq!(hours.len(), 48);
    assert_eq!(hours[0], dt(2024, 2, 28, 0));
    assert_eq!(hours[23], dt(2024, 2, 28, 23));
    assert_eq!(hours[24], dt(2024, 2, 29, 0));
    assert_eq!(hours[47], dt(2024, 2, 29, 23));
}

#[test]
fn duplicate_hours_are_reported_per_repetition() {
    let data = vec![
        rec(dt(2024, 5, 1, 0), 1, 0),
        rec(dt(2024, 5, 1, 1), 2, 0),
        rec(dt(2024, 5, 1, 0), 3, 0),
        rec(dt(2024, 5, 1, 0), 4, 0),
    ];
    let dups = find_duplicate_hours(&data);
    assert_eq!(dups, vec![dt(2024, 5, 1, 0), dt(2024, 5, 1, 0)]);
    assert_eq!(find_duplicate_hours(&Vec::new()), Vec::<DateTime>::new());
}

#[test]
fn missing_hours_are_reported_in_expected_order() {
    let data = vec![rec(dt(2024, 5, 1, 0), 1, 0), rec(dt(2024, 5, 1, 2), 2, 0)];
    let expected = vec![dt(2024, 5, 1, 0), dt(2024, 5, 1, 1), dt(2024, 5, 1, 2), dt(2024, 5, 1, 3)];
    let missing = find_missing_hours(&data, &expected);
    assert_eq!(missing, vec![dt(2024, 5, 1, 1), dt(2024, 5, 1, 3)]);
}
