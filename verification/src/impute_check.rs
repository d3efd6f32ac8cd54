//! Coverage validation of a record sequence: the hourly timestamps a date
//! range calls for, duplicated hours, and missing hours.
use vstd::prelude::*;

use crate::calendar::{
    datetime_le, dt_add_hours, hours_in_range, lemma_lex_lt_hour_index, next_hour, Date, DateTime,
    MAX_YEAR,
};
use crate::records::UsageRecord;

verus! {

/// Every hourly timestamp from 00:00 of `start_date` through 23:00 of
/// `end_date`, in chronological order.
pub fn generate_expected_hours(start_date: Date, end_date: Date) -> (r: Vec<DateTime>)
    requires
        start_date.wf(),
        end_date.wf(),
        end_date.year < MAX_YEAR,
    ensures
        r@.len() == hours_in_range(
            DateTime { date: start_date, hour: 0 },
            DateTime { date: end_date, hour: 23 },
        ),
        forall|i: int|
            #![trigger r@[i]]
            0 <= i < r@.len() ==> {
                let start = DateTime { date: start_date, hour: 0 };
                r@[i] == dt_add_hours(start, i as nat) && r@[i].wf() && r@[i].hour_index()
                    == start.hour_index() + i
            },
{
    let start = DateTime { date: start_date, hour: 0 };
    let end = DateTime { date: end_date, hour: 23 };
    let mut expected_hours: Vec<DateTime> = Vec::new();
    let mut current_time = start;
    while datetime_le(&current_time, &end)
        invariant
            start == (DateTime { date: start_date, hour: 0 }),
            end == (DateTime { date: end_date, hour: 23 }),
            start.wf(),
            end.wf(),
            end.date.year < MAX_YEAR,
            current_time.wf(),
            current_time == dt_add_hours(start, expected_hours@.len() as nat),
            current_time.hour_index() == start.hour_index() + expected_hours@.len(),
            expected_hours@.len() > 0 ==> current_time.hour_index() <= end.hour_index() + 1,
            forall|i: int|
                #![trigger expected_hours@[i]]
                0 <= i < expected_hours@.len() ==> expected_hours@[i] == dt_add_hours(
                    start,
                    i as nat,
                ) && expected_hours@[i].wf() && expected_hours@[i].hour_index()
                    == start.hour_index() + i,
        decreases end.hour_index() + 1 - current_time.hour_index(),
    {
        proof {
            if current_time.date.year > end.date.year {
                assert(end.lex_lt(current_time));
                lemma_lex_lt_hour_index(end, current_time);
                assert(false);
            }
        }
        expected_hours.push(current_time);
        current_time = next_hour(current_time);
    }
    expected_hours
}

/// Whether an earlier record carries the same timestamp.
pub open spec fn stamp_seen_before(s: Seq<UsageRecord>, j: int) -> bool {
    exists|i: int| 0 <= i < j && s[i].stamp == s[j].stamp
}

/// The timestamps of the records among the first `n` whose (date, hour)
/// pair already occurred earlier in the sequence, in order of discovery.
pub open spec fn duplicate_stamps(s: Seq<UsageRecord>, n: int) -> Seq<DateTime>
    decreases n,
{
    if n <= 0 {
        Seq::empty()
    } else if stamp_seen_before(s, n - 1) {
        duplicate_stamps(s, n - 1).push(s[n - 1].stamp)
    } else {
        duplicate_stamps(s, n - 1)
    }
}

/// Whether some record of `usage_data` before position `j` carries `stamp`.
fn stamp_in_prefix(usage_data: &Vec<UsageRecord>, j: usize, stamp: &DateTime) -> (r: bool)
    requires
        j <= usage_data@.len(),
    ensures
        r == exists|i: int| 0 <= i < j && usage_data@[i].stamp == *stamp,
{
    let mut i: usize = 0;
    while i < j
        invariant
            j <= usage_data@.len(),
            i <= j,
            forall|k: int| 0 <= k < i ==> usage_data@[k].stamp != *stamp,
        decreases j - i,
    {
        if usage_data[i].stamp == *stamp {
            return true;
        }
        i = i + 1;
    }
    false
}

/// The (date, hour) pairs that occur more than once, one entry per repeated
/// occurrence, in order of discovery.
pub fn find_duplicate_hours(usage_data: &Vec<UsageRecord>) -> (r: Vec<DateTime>)
    ensures
        r@ == duplicate_stamps(usage_data@, usage_data@.len() as int),
{
    let n = usage_data.len();
    let mut duplicates: Vec<DateTime> = Vec::new();
    let mut j: usize = 0;
    while j < n
        invariant
            n == usage_data@.len(),
            j <= n,
            duplicates@ == duplicate_stamps(usage_data@, j as int),
        decreases n - j,
    {
        let stamp = usage_data[j].stamp;
        if stamp_in_prefix(usage_data, j, &stamp) {
            duplicates.push(stamp);
        }
        j = j + 1;
    }
    duplicates
}

/// Whether some record of `usage_data` carries `stamp`.
pub open spec fn stamp_present(s: Seq<UsageRecord>, stamp: DateTime) -> bool {
    exists|i: int| 0 <= i < s.len() && s[i].stamp == stamp
}

/// The expected timestamps among the first `n` that no record carries, in
/// the expected order.
pub open spec fn missing_stamps(s: Seq<UsageRecord>, expected: Seq<DateTime>, n: int) -> Seq<
    DateTime,
>
    decreases n,
{
    if n <= 0 {
        Seq::empty()
    } else if !stamp_present(s, expected[n - 1]) {
        missing_stamps(s, expected, n - 1).push(expected[n - 1])
    } else {
        missing_stamps(s, expected, n - 1)
    }
}

/// The expected hours that the record sequence does not cover, in the
/// expected order.
pub fn find_missing_hours(usage_data: &Vec<UsageRecord>, expected_hours: &Vec<DateTime>) -> (r: Vec<
    DateTime,
>)
    ensures
        r@ == missing_stamps(usage_data@, expected_hours@, expected_hours@.len() as int),
{
    let n = expected_hours.len();
    let m = usage_data.len();
    let mut missing: Vec<DateTime> = Vec::new();
    let mut j: usize = 0;
    while j < n
        invariant
            n == expected_hours@.len(),
            m == usage_data@.len(),
            j <= n,
            missing@ == missing_stamps(usage_data@, expected_hours@, j as int),
        decreases n - j,
    {
        let stamp = expected_hours[j];
        if !stamp_in_prefix(usage_data, m, &stamp) {
            missing.push(stamp);
        }
        j = j + 1;
    }
    missing
}

} // verus!
