//! The hourly usage record: the common unit flowing through imputation,
//! validation and dispatch simulation, plus small record-sequence helpers.
//!
//! Energy is held in milli-kWh so that every computation in the library is
//! exact integer arithmetic.  The utility export's descriptive pass-through
//! columns (category and cost label) never enter any computation and stay
//! with the I/O layer around the library.
use vstd::prelude::*;

use crate::calendar::{Date, DateTime};

verus! {

/// Upper bound on a single hour's energy (200 MWh) accepted by the
/// arithmetic-heavy entry points; keeps yearly sums far from `i64`/`u64`
/// limits.
pub const MAX_HOUR_ENERGY_MILLI_KWH: u64 = 200_000_000;

/// Most records a single analysis accepts; a full year has at most 8784.
pub const MAX_RECORD_COUNT: usize = 50_000;

/// Extra grid draw for overnight vehicle charging, in milli-kWh.
pub const EV_CHARGE_MILLI_KWH: u64 = 9_000;

/// Hour of day during which the vehicle charged.
pub const EV_CHARGE_HOUR: u8 = 19;

/// One clock hour of metered (or synthesized) activity.
#[derive(Clone, Copy, PartialEq, Eq, Structural, Debug)]
pub struct UsageRecord {
    /// Date and starting hour of the metered period (it ends 59 minutes
    /// later).
    pub stamp: DateTime,
    /// Energy drawn from the grid in that hour.
    pub import_milli_kwh: u64,
    /// Energy that would be sent to the grid at reference solar capacity.
    pub export_milli_kwh: u64,
}

impl UsageRecord {
    pub open spec fn wf(self) -> bool {
        self.stamp.wf()
    }
}

/// Day on which the vehicle-charging adjustment stops applying.
pub open spec fn ev_charge_cutoff() -> Date {
    Date { year: 2024, month: 10, day: 26 }
}

/// A record after the vehicle-charging adjustment: 9 kWh more import in the
/// 19:00 hour of every day before the cutoff.
pub open spec fn ev_adjusted(r: UsageRecord) -> UsageRecord {
    if r.stamp.hour == EV_CHARGE_HOUR && r.stamp.date.lex_lt(ev_charge_cutoff()) {
        UsageRecord { import_milli_kwh: (r.import_milli_kwh + EV_CHARGE_MILLI_KWH) as u64, ..r }
    } else {
        r
    }
}

/// Adds the fixed vehicle-charging draw to the 19:00 hour of each day
/// before the cutoff date.
pub fn add_ev_charging(usage_data: &mut Vec<UsageRecord>)
    requires
        forall|j: int|
            0 <= j < old(usage_data)@.len() ==> old(usage_data)@[j].import_milli_kwh
                + EV_CHARGE_MILLI_KWH <= u64::MAX,
    ensures
        final(usage_data)@.len() == old(usage_data)@.len(),
        forall|j: int|
            0 <= j < final(usage_data)@.len() ==> final(usage_data)@[j] == ev_adjusted(
                old(usage_data)@[j],
            ),
{
    let n = usage_data.len();
    let mut out: Vec<UsageRecord> = Vec::new();
    let mut i: usize = 0;
    while i < n
        invariant
            n == usage_data@.len(),
            i <= n,
            out@.len() == i,
            forall|j: int|
                0 <= j < n ==> usage_data@[j].import_milli_kwh + EV_CHARGE_MILLI_KWH <= u64::MAX,
            forall|j: int| 0 <= j < i ==> out@[j] == ev_adjusted(usage_data@[j]),
        decreases n - i,
    {
        let r = usage_data[i];
        let cutoff = Date { year: 2024, month: 10, day: 26 };
        if r.stamp.hour == EV_CHARGE_HOUR && crate::calendar::date_lt(&r.stamp.date, &cutoff) {
            out.push(
                UsageRecord { import_milli_kwh: r.import_milli_kwh + EV_CHARGE_MILLI_KWH, ..r },
            );
        } else {
            out.push(r);
        }
        i = i + 1;
    }
    *usage_data = out;
}

/// Sum of the import column over the first `n` records.
pub open spec fn sum_import_milli(s: Seq<UsageRecord>, n: int) -> int
    decreases n,
{
    if n <= 0 {
        0
    } else {
        sum_import_milli(s, n - 1) + s[n - 1].import_milli_kwh
    }
}

/// Total grid import over a record sequence, in milli-kWh.
pub fn total_import_milli_kwh(records: &Vec<UsageRecord>) -> (r: u64)
    requires
        records@.len() <= MAX_RECORD_COUNT,
        forall|j: int|
            0 <= j < records@.len() ==> records@[j].import_milli_kwh <= MAX_HOUR_ENERGY_MILLI_KWH,
    ensures
        r == sum_import_milli(records@, records@.len() as int),
{
    let n = records.len();
    let mut total: u64 = 0;
    let mut i: usize = 0;
    while i < n
        invariant
            n == records@.len(),
            n <= MAX_RECORD_COUNT,
            i <= n,
            forall|j: int|
                0 <= j < n ==> records@[j].import_milli_kwh <= MAX_HOUR_ENERGY_MILLI_KWH,
            total == sum_import_milli(records@, i as int),
            total <= i * MAX_HOUR_ENERGY_MILLI_KWH,
        decreases n - i,
    {
        total = total + records[i].import_milli_kwh;
        i = i + 1;
    }
    total
}

/// Index of the record with the largest export value, the last such record
/// when several tie; `None` only on an empty sequence.
pub fn max_export_index(records: &Vec<UsageRecord>) -> (r: Option<usize>)
    ensures
        r is None <==> records@.len() == 0,
        r is Some ==> {
            let k = r->Some_0 as int;
            0 <= k < records@.len() && (forall|j: int|
                0 <= j < records@.len() ==> records@[j].export_milli_kwh
                    <= records@[k].export_milli_kwh) && (forall|j: int|
                k < j < records@.len() ==> records@[j].export_milli_kwh
                    < records@[k].export_milli_kwh)
        },
{
    if records.len() == 0 {
        return None;
    }
    let n = records.len();
    let mut best: usize = 0;
    let mut i: usize = 1;
    while i < n
        invariant
            n == records@.len(),
            1 <= i <= n,
            best < i,
            forall|j: int|
                0 <= j < i ==> records@[j].export_milli_kwh <= records@[best as int].export_milli_kwh,
            forall|j: int|
                best < j < i ==> records@[j].export_milli_kwh < records@[
                    best as int
                ].export_milli_kwh,
        decreases n - i,
    {
        if records[i].export_milli_kwh >= records[best].export_milli_kwh {
            best = i;
        }
        i = i + 1;
    }
    Some(best)
}

/// Length of `s` once every trailing record dated `d` is removed.
pub open spec fn trimmed_len(s: Seq<UsageRecord>, d: Date) -> int
    decreases s.len(),
{
    if s.len() == 0 || s.last().stamp.date != d {
        s.len() as int
    } else {
        trimmed_len(s.drop_last(), d)
    }
}

/// Removes the trailing records whose date equals `first_new_date`: when two
/// consecutive source files overlap on a day, the later file's data
/// supersedes the earlier file's trailing day.
pub fn drop_overlapping_tail(all_data: &mut Vec<UsageRecord>, first_new_date: &Date)
    ensures
        final(all_data)@ == old(all_data)@.take(trimmed_len(old(all_data)@, *first_new_date)),
{
    let ghost orig = all_data@;
    let mut keep: usize = all_data.len();
    proof {
        assert(orig.take(keep as int) =~= orig);
    }
    loop
        invariant
            all_data@ == orig,
            keep <= orig.len(),
            trimmed_len(orig, *first_new_date) == trimmed_len(
                orig.take(keep as int),
                *first_new_date,
            ),
        ensures
            all_data@ == orig,
            keep <= orig.len(),
            trimmed_len(orig, *first_new_date) == keep,
        decreases keep,
    {
        if keep == 0 {
            break ;
        }
        let r = all_data[keep - 1];
        if r.stamp.date.year == first_new_date.year && r.stamp.date.month == first_new_date.month
            && r.stamp.date.day == first_new_date.day {
            proof {
                let pfx = orig.take(keep as int);
                assert(pfx.last().stamp.date == *first_new_date);
                assert(pfx.drop_last() =~= orig.take(keep - 1));
            }
            keep = keep - 1;
        } else {
            proof {
                let pfx = orig.take(keep as int);
                if pfx.last().stamp.date == *first_new_date {
                    assert(false);
                }
                assert(trimmed_len(orig.take(keep as int), *first_new_date) == keep);
            }
            break ;
        }
    }
    all_data.truncate(keep);
    proof {
        assert(orig.subrange(0, keep as int) =~= orig.take(keep as int));
    }
}

/// Hour count of a complete year of records.
pub fn expected_full_year_hours(year: u32) -> (r: u64)
    ensures
        r == crate::calendar::days_in_year(year as int) * 24,
{
    if year % 4 == 0 && (year % 100 != 0 || year % 400 == 0) {
        366 * 24
    } else {
        365 * 24
    }
}

} // verus!
