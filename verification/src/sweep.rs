//! Parameter-sweep optimizer: evaluates the dispatch simulator over the
//! fixed grid of capacity multipliers (16/26 to 90/26 in steps of 2/26) and
//! battery sizes (0 to 30 kWh in steps of 5), and keeps the cheapest
//! configuration, first one encountered on ties.
use vstd::prelude::*;

use crate::capacity::CapacityRatio;
use crate::dispatch::{annual_cost, sim_inputs_ok, spec_annual_cost};
use crate::records::{UsageRecord, MAX_HOUR_ENERGY_MILLI_KWH, MAX_RECORD_COUNT};

verus! {

/// Denominator of every capacity multiplier the sweep tries: the existing
/// panel count.
pub const SWEEP_CAPACITY_DEN: u64 = 26;

/// First capacity-multiplier numerator of the sweep.
pub const SWEEP_CAPACITY_NUM_START: u64 = 16;

/// Last capacity-multiplier numerator of the sweep.
pub const SWEEP_CAPACITY_NUM_END: u64 = 90;

/// Step between capacity-multiplier numerators.
pub const SWEEP_CAPACITY_NUM_STEP: u64 = 2;

/// Largest battery size of the sweep, in kWh.
pub const SWEEP_BATTERY_KWH_END: u64 = 30;

/// Step between battery sizes, in kWh.
pub const SWEEP_BATTERY_KWH_STEP: u64 = 5;

/// The configurations the sweep tries.
pub open spec fn on_sweep_grid(a_num: int, battery_kwh: int) -> bool {
    &&& 16 <= a_num <= 90
    &&& (a_num - 16) % 2 == 0
    &&& 0 <= battery_kwh <= 30
    &&& battery_kwh % 5 == 0
}

/// Capacity fraction of a sweep numerator.
pub open spec fn sweep_capacity(a_num: int) -> CapacityRatio {
    CapacityRatio { num: a_num as u64, den: SWEEP_CAPACITY_DEN }
}

/// Iteration order of the sweep: capacity numerator outer and ascending,
/// battery size inner and ascending.
pub open spec fn sweep_earlier(a1: int, b1: int, a2: int, b2: int) -> bool {
    a1 < a2 || (a1 == a2 && b1 < b2)
}

/// The cost-minimizing configuration a sweep found.
#[derive(Clone, Copy, PartialEq, Eq, Structural, Debug)]
pub struct SweepResult {
    /// Numerator of the winning capacity multiplier (denominator 26).
    pub capacity_num: u64,
    /// Winning battery size, in kWh.
    pub battery_kwh: u64,
    /// Annual cost of the winning configuration, in micro-dollars.
    pub total_cost_micro: i64,
}

/// Evaluates every sweep configuration against the given year of records
/// and returns the one with strictly minimal annual cost; on ties the one
/// tried first (lowest capacity, then lowest battery) wins.
#[verifier::rlimit(100)]
pub fn find_min_cost_configuration(usage_data: &Vec<UsageRecord>) -> (r: SweepResult)
    requires
        usage_data@.len() <= MAX_RECORD_COUNT,
        forall|j: int|
            0 <= j < usage_data@.len() ==> usage_data@[j].import_milli_kwh
                <= MAX_HOUR_ENERGY_MILLI_KWH && usage_data@[j].export_milli_kwh
                <= MAX_HOUR_ENERGY_MILLI_KWH,
    ensures
        on_sweep_grid(r.capacity_num as int, r.battery_kwh as int),
        r.total_cost_micro == spec_annual_cost(
            usage_data@,
            sweep_capacity(r.capacity_num as int),
            r.battery_kwh as int,
        ),
        forall|an: int, b: int|
            on_sweep_grid(an, b) ==> spec_annual_cost(usage_data@, sweep_capacity(an), b)
                >= r.total_cost_micro,
        forall|an: int, b: int|
            on_sweep_grid(an, b) && sweep_earlier(
                an,
                b,
                r.capacity_num as int,
                r.battery_kwh as int,
            ) ==> spec_annual_cost(usage_data@, sweep_capacity(an), b) > r.total_cost_micro,
{
    let first_capacity = CapacityRatio { num: SWEEP_CAPACITY_NUM_START, den: SWEEP_CAPACITY_DEN };
    let first_cost = annual_cost(usage_data, first_capacity, 0);
    let mut best = SweepResult {
        capacity_num: SWEEP_CAPACITY_NUM_START,
        battery_kwh: 0,
        total_cost_micro: first_cost,
    };
    let mut a_num: u64 = SWEEP_CAPACITY_NUM_START;
    while a_num <= SWEEP_CAPACITY_NUM_END
        invariant
            usage_data@.len() <= MAX_RECORD_COUNT,
            forall|j: int|
                0 <= j < usage_data@.len() ==> usage_data@[j].import_milli_kwh
                    <= MAX_HOUR_ENERGY_MILLI_KWH && usage_data@[j].export_milli_kwh
                    <= MAX_HOUR_ENERGY_MILLI_KWH,
            16 <= a_num <= 92,
            (a_num - 16) % 2 == 0,
            best.capacity_num <= a_num,
            best.capacity_num == a_num ==> best.battery_kwh == 0,
            on_sweep_grid(best.capacity_num as int, best.battery_kwh as int),
            best.total_cost_micro == spec_annual_cost(
                usage_data@,
                sweep_capacity(best.capacity_num as int),
                best.battery_kwh as int,
            ),
            forall|an: int, b: int|
                on_sweep_grid(an, b) && an < a_num ==> spec_annual_cost(
                    usage_data@,
                    sweep_capacity(an),
                    b,
                ) >= best.total_cost_micro,
            forall|an: int, b: int|
                on_sweep_grid(an, b) && an < a_num && sweep_earlier(
                    an,
                    b,
                    best.capacity_num as int,
                    best.battery_kwh as int,
                ) ==> spec_annual_cost(usage_data@, sweep_capacity(an), b)
                    > best.total_cost_micro,
        decreases 92 - a_num,
    {
        let a = CapacityRatio { num: a_num, den: SWEEP_CAPACITY_DEN };
        let mut b: u64 = 0;
        while b <= SWEEP_BATTERY_KWH_END
            invariant
                usage_data@.len() <= MAX_RECORD_COUNT,
                forall|j: int|
                    0 <= j < usage_data@.len() ==> usage_data@[j].import_milli_kwh
                        <= MAX_HOUR_ENERGY_MILLI_KWH && usage_data@[j].export_milli_kwh
                        <= MAX_HOUR_ENERGY_MILLI_KWH,
                16 <= a_num <= 90,
                (a_num - 16) % 2 == 0,
                a == sweep_capacity(a_num as int),
                b <= 35,
                b % 5 == 0,
                !sweep_earlier(
                    a_num as int,
                    b as int,
                    best.capacity_num as int,
                    best.battery_kwh as int,
                ),
                on_sweep_grid(best.capacity_num as int, best.battery_kwh as int),
                best.total_cost_micro == spec_annual_cost(
                    usage_data@,
                    sweep_capacity(best.capacity_num as int),
                    best.battery_kwh as int,
                ),
                forall|an: int, bb: int|
                    on_sweep_grid(an, bb) && sweep_earlier(an, bb, a_num as int, b as int)
                        ==> spec_annual_cost(usage_data@, sweep_capacity(an), bb)
                        >= best.total_cost_micro,
                forall|an: int, bb: int|
                    on_sweep_grid(an, bb) && sweep_earlier(an, bb, a_num as int, b as int)
                        && sweep_earlier(
                        an,
                        bb,
                        best.capacity_num as int,
                        best.battery_kwh as int,
                    ) ==> spec_annual_cost(usage_data@, sweep_capacity(an), bb)
                        > best.total_cost_micro,
            decreases 36 - b,
        {
            let total_cost = annual_cost(usage_data, a, b);
            if total_cost < best.total_cost_micro {
                best = SweepResult { capacity_num: a_num, battery_kwh: b, total_cost_micro: total_cost };
            }
            b = b + SWEEP_BATTERY_KWH_STEP;
        }
        a_num = a_num + SWEEP_CAPACITY_NUM_STEP;
    }
    best
}

} // verus!
