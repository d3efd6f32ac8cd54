//! Time-of-use rate table (peak, part-peak and off-peak by season).  The
//! optimizer's flat-rate assumption does not use it; it is kept as the
//! pluggable detailed tariff.
use vstd::prelude::*;

use crate::calendar::DateTime;

verus! {

/// Time-of-use energy rate in micro-dollars per milli-kWh: summer is June
/// through September, peak is 16:00 through 20:00, part-peak 15:00 and
/// 21:00 through 23:00, the rest off-peak.
pub open spec fn spec_energy_rate(month: int, hour: int) -> int {
    let summer = 6 <= month <= 9;
    if 16 <= hour <= 20 {
        if summer {
            616
        } else {
            384
        }
    } else if hour == 15 || 21 <= hour <= 23 {
        if summer {
            454
        } else {
            362
        }
    } else {
        if summer {
            397
        } else {
            348
        }
    }
}

/// Cost of the given energy at the time-of-use rate of the given hour, in
/// micro-dollars.
pub fn cost_per_kwh(milli_kwh: u64, start_time: &DateTime) -> (r: u64)
    requires
        start_time.wf(),
        milli_kwh * 616 <= u64::MAX,
    ensures
        r == spec_energy_rate(start_time.date.month as int, start_time.hour as int) * milli_kwh,
{
    let month = start_time.date.month;
    let hour = start_time.hour;
    let summer = 6 <= month && month <= 9;
    let rate: u64 = if 16 <= hour && hour <= 20 {
        if summer {
            616
        } else {
            384
        }
    } else if hour == 15 || (21 <= hour && hour <= 23) {
        if summer {
            454
        } else {
            362
        }
    } else {
        if summer {
            397
        } else {
            348
        }
    };
    proof {
        vstd::arithmetic::mul::lemma_mul_inequality(rate as int, 616, milli_kwh as int);
        vstd::arithmetic::mul::lemma_mul_is_commutative(rate as int, milli_kwh as int);
        vstd::arithmetic::mul::lemma_mul_is_commutative(616, milli_kwh as int);
    }
    rate * milli_kwh
}

} // verus!
