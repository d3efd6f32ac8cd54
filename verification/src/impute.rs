//! Gap imputation: synthesizes one hourly usage record per hour of a target
//! range by blending an import reference sequence (copied unscaled, cyclic)
//! with an export reference sequence (scaled by a month-dependent seasonal
//! constant, cyclic).
use vstd::prelude::*;

use vstd::arithmetic::div_mod::{
    lemma_add_mod_noop_right, lemma_fundamental_div_mod, lemma_mod_add_multiples_vanish,
    lemma_mod_bound, lemma_mod_mod, lemma_mod_self_0, lemma_small_mod,
};
use crate::calendar::{
    dt_add_hours, hours_in_range, next_hour, datetime_le, lemma_lex_lt_hour_index, DateTime,
    MAX_YEAR,
};
use crate::records::UsageRecord;

verus! {

/// Seasonal scaling constant of the baseline month (June): scaled exports
/// are `export * month_scale(m) / EXPORT_SCALE_BASELINE`.
pub const EXPORT_SCALE_BASELINE: u64 = 747;

/// Monthly AC-energy scaling constants (kWh baselines of a reference year).
pub open spec fn month_scale(m: int) -> int {
    if m == 1 {
        327
    } else if m == 2 {
        352
    } else if m == 3 {
        560
    } else if m == 4 {
        630
    } else if m == 5 {
        688
    } else if m == 6 {
        747
    } else if m == 7 {
        757
    } else if m == 8 {
        724
    } else if m == 9 {
        610
    } else if m == 10 {
        504
    } else if m == 11 {
        391
    } else if m == 12 {
        330
    } else {
        0
    }
}

/// Seasonal scaling constant for a calendar month, `None` outside 1..=12.
pub fn get_ac_energy_scaling(month: u8) -> (r: Option<u64>)
    ensures
        1 <= month <= 12 ==> r == Some(month_scale(month as int) as u64),
        !(1 <= month <= 12) ==> r is None,
{
    match month {
        1 => Some(327),
        2 => Some(352),
        3 => Some(560),
        4 => Some(630),
        5 => Some(688),
        6 => Some(747),
        7 => Some(757),
        8 => Some(724),
        9 => Some(610),
        10 => Some(504),
        11 => Some(391),
        12 => Some(330),
        _ => None,
    }
}

/// An emitted export value: the reference export scaled by the target
/// month's constant against the June baseline, rounded down.
pub open spec fn scaled_export(export_milli_kwh: int, month: int) -> int {
    export_milli_kwh * month_scale(month) / (EXPORT_SCALE_BASELINE as int)
}

/// Which import-reference record the `i`-th emitted hour copies: the cursor
/// advances by one each hour and wraps at the reference's length.
pub open spec fn import_src_index(i: int, import_len: int) -> int {
    i % import_len
}

/// Which export-reference record the `i`-th emitted hour scales.  The
/// already-wrapped import cursor is reduced modulo the export reference's
/// length, so the pattern has period `export_len` exactly when `import_len`
/// is a multiple of `export_len`.
pub open spec fn export_src_index(i: int, import_len: int, export_len: int) -> int {
    (i % import_len) % export_len
}

/// Failure of the imputation engine.
#[derive(Clone, Copy, PartialEq, Eq, Structural, Debug)]
pub enum ImputeError {
    /// The import reference sequence has no records to copy from.
    EmptyImportReference,
}

/// A sequence of timestamps whose hour indices grow in lockstep with the
/// position — as the imputation engine's output does — is strictly
/// chronologically ordered, with no gaps and no duplicated hours.
pub proof fn lemma_hourly_stamps_strictly_increasing(stamps: Seq<DateTime>, base: int)
    requires
        forall|i: int| 0 <= i < stamps.len() ==> (#[trigger] stamps[i]).hour_index() == base + i,
    ensures
        forall|i: int, j: int|
            0 <= i < j < stamps.len() ==> stamps[i].hour_index() < stamps[j].hour_index()
                && stamps[i] != stamps[j],
{
}

/// The import cursor increments by exactly one modulo the reference length
/// each hour, never skipping, and returns to zero after a full cycle.
pub proof fn lemma_import_cursor(i: int, import_len: int)
    requires
        0 <= i,
        0 < import_len,
    ensures
        import_src_index(0, import_len) == 0,
        import_src_index(i + 1, import_len) == (import_src_index(i, import_len) + 1) % import_len,
        import_src_index(import_len, import_len) == 0,
        0 <= import_src_index(i, import_len) < import_len,
{
    lemma_small_mod(0, import_len as nat);
    lemma_add_mod_noop_right(1, i, import_len);
    lemma_mod_self_0(import_len);
    lemma_mod_bound(i, import_len);
}

/// Export-reference cycling: when the import reference's length is a
/// multiple of the export reference's, emitted hours `i` and
/// `i + export_len` scale the same export-reference record.  (With lengths
/// that do not divide, the wrap of the import cursor breaks the period.)
pub proof fn lemma_export_cycle(i: int, import_len: int, export_len: int)
    requires
        0 <= i,
        0 < export_len,
        0 < import_len,
        import_len % export_len == 0,
    ensures
        export_src_index(i + export_len, import_len, export_len) == export_src_index(
            i,
            import_len,
            export_len,
        ),
{
    let k = import_len / export_len;
    lemma_fundamental_div_mod(import_len, export_len);
    assert(import_len == export_len * k);
    lemma_mod_mod(i, export_len, k);
    lemma_mod_mod(i + export_len, export_len, k);
    lemma_mod_add_multiples_vanish(i, export_len);
}

/// Synthesizes one record per hour of the inclusive target range, in
/// chronological order: imports are copied from the cyclic import
/// reference, exports from the cyclic export reference scaled by the target
/// month's seasonal constant.  Fails exactly when records are called for
/// and the import reference is empty.
pub fn impute_hour_for_hour(
    import_ref: &Vec<UsageRecord>,
    export_ref: &Vec<UsageRecord>,
    start: DateTime,
    end: DateTime,
) -> (r: Result<Vec<UsageRecord>, ImputeError>)
    requires
        start.wf(),
        end.wf(),
        end.date.year < MAX_YEAR,
        import_ref@.len() > 0 && start.hour_index() <= end.hour_index() ==> export_ref@.len() > 0,
        forall|j: int|
            0 <= j < export_ref@.len() ==> export_ref@[j].export_milli_kwh * 757 <= u64::MAX,
    ensures
        r is Err <==> (import_ref@.len() == 0 && start.hour_index() <= end.hour_index()),
        r is Err ==> r->Err_0 == ImputeError::EmptyImportReference,
        r is Ok ==> r->Ok_0@.len() == hours_in_range(start, end),
        r is Ok ==> forall|i: int|
            #![trigger r->Ok_0@[i]]
            0 <= i < r->Ok_0@.len() ==> {
                let rec = r->Ok_0@[i];
                rec.stamp == dt_add_hours(start, i as nat) && rec.stamp.wf()
                    && rec.stamp.hour_index() == start.hour_index() + i && rec.import_milli_kwh
                    == import_ref@[import_src_index(i, import_ref@.len() as int)].import_milli_kwh
                    && rec.export_milli_kwh == scaled_export(
                    export_ref@[export_src_index(
                        i,
                        import_ref@.len() as int,
                        export_ref@.len() as int,
                    )].export_milli_kwh as int,
                    dt_add_hours(start, i as nat).date.month as int,
                )
            },
{
    let ilen = import_ref.len();
    let elen = export_ref.len();
    let mut imputed_data: Vec<UsageRecord> = Vec::new();
    let mut current_time = start;
    let mut import_data_idx: usize = 0;

    while datetime_le(&current_time, &end)
        invariant
            start.wf(),
            end.wf(),
            end.date.year < MAX_YEAR,
            current_time.wf(),
            ilen == import_ref@.len(),
            elen == export_ref@.len(),
            ilen > 0 && start.hour_index() <= end.hour_index() ==> elen > 0,
            forall|j: int|
                0 <= j < export_ref@.len() ==> export_ref@[j].export_milli_kwh * 757 <= u64::MAX,
            current_time == dt_add_hours(start, imputed_data@.len() as nat),
            current_time.hour_index() == start.hour_index() + imputed_data@.len(),
            imputed_data@.len() > 0 ==> current_time.hour_index() <= end.hour_index() + 1,
            ilen > 0 ==> import_data_idx == import_src_index(imputed_data@.len() as int, ilen as int),
            ilen == 0 ==> import_data_idx == 0 && imputed_data@.len() == 0,
            forall|i: int|
                #![trigger imputed_data@[i]]
                0 <= i < imputed_data@.len() ==> {
                    let rec = imputed_data@[i];
                    rec.stamp == dt_add_hours(start, i as nat) && rec.stamp.wf()
                        && rec.stamp.hour_index() == start.hour_index() + i && rec.import_milli_kwh
                        == import_ref@[import_src_index(i, ilen as int)].import_milli_kwh
                        && rec.export_milli_kwh == scaled_export(
                        export_ref@[export_src_index(
                            i,
                            ilen as int,
                            elen as int,
                        )].export_milli_kwh as int,
                        dt_add_hours(start, i as nat).date.month as int,
                    )
                },
        decreases end.hour_index() + 1 - current_time.hour_index(),
    {
        // The cursor is kept below the reference length by the wraparound,
        // so this can only trigger on an empty import reference.
        if import_data_idx >= ilen {
            proof {
                if ilen > 0 {
                    lemma_mod_bound(imputed_data@.len() as int, ilen as int);
                    assert(false);
                }
            }
            return Err(ImputeError::EmptyImportReference);
        }
        let scaling_factor = match get_ac_energy_scaling(current_time.date.month) {
            Some(s) => s,
            // Unreachable: a valid timestamp's month always has a scaling
            // constant.
            None => {
                proof {
                    assert(false);
                }
                return Err(ImputeError::EmptyImportReference);
            },
        };
        proof {
            if current_time.date.year > end.date.year {
                assert(end.lex_lt(current_time));
                lemma_lex_lt_hour_index(end, current_time);
                assert(false);
            }
            lemma_mod_bound(import_data_idx as int, elen as int);
        }
        let import_record = &import_ref[import_data_idx];
        let export_record = &export_ref[import_data_idx % elen];
        proof {
            let e = export_record.export_milli_kwh as int;
            assert(e == export_ref@[import_data_idx as int % elen as int].export_milli_kwh);
            assert(e * 757 <= u64::MAX);
            assert(month_scale(current_time.date.month as int) <= 757);
            assert(scaling_factor <= 757);
            vstd::arithmetic::mul::lemma_mul_inequality(scaling_factor as int, 757, e);
            vstd::arithmetic::mul::lemma_mul_is_commutative(scaling_factor as int, e);
            vstd::arithmetic::mul::lemma_mul_is_commutative(757, e);
            assert(e * scaling_factor <= u64::MAX);
        }
        let scaled_export_kwh = export_record.export_milli_kwh * scaling_factor
            / EXPORT_SCALE_BASELINE;
        imputed_data.push(
            UsageRecord {
                stamp: current_time,
                import_milli_kwh: import_record.import_milli_kwh,
                export_milli_kwh: scaled_export_kwh,
            },
        );
        current_time = next_hour(current_time);
        proof {
            lemma_add_mod_noop_right(1, (imputed_data@.len() - 1) as int, ilen as int);
        }
        import_data_idx = (import_data_idx + 1) % ilen;
    }
    Ok(imputed_data)
}

} // verus!
