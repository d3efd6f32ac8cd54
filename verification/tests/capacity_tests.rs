use solar_dispatch::capacity::{
    capacity_plan, cost_of_getting_to_capacity, CapacityPlan, CapacityRatio,
};

fn ratio(num: u64, den: u64) -> CapacityRatio {
    CapacityRatio { num, den }
}

// Capacity 1.0 with the 26-panel array: junking needs
// ceil((26 - 16) / 2.5) = 4 new panels, so junk-and-replace costs
// 1500 + 4 * 1400 = 7100 and relocating at 5000 wins.
#[test]
fn capacity_one_with_26_panels() {
    assert_eq!(cost_of_getting_to_capacity(ratio(26, 26), 26), 5000);
    assert_eq!(capacity_plan(ratio(26, 26), 26), (CapacityPlan::MoveBack, 0));
}

// With an array matching the 16-panel baseline, junking needs no new
// panels and its 1500 beats relocating at 5000.
#[test]
fn junking_wins_when_no_new_panels_needed() {
    assert_eq!(cost_of_getting_to_capacity(ratio(16, 16), 16), 1500);
    assert_eq!(capacity_plan(ratio(16, 16), 16), (CapacityPlan::JunkAndReplace, 0));
}

// The sweep's lowest capacity, 16/26: junking needs no new panels either.
#[test]
fn sweep_minimum_capacity_cost() {
    assert_eq!(cost_of_getting_to_capacity(ratio(16, 26), 26), 1500);
}

// Above 1.0 the choice is between relocating plus added panels and junking
// everything.  At 90/26: addition needs ceil((90 - 26) * 26 * 2 / (5 * 26))
// = ceil(25.6) = 26 panels (41400 total), junking needs ceil((90 - 16) * 26
// * 2 / (5 * 26)) = ceil(29.6) = 30 panels (43500 total).
#[test]
fn expansion_compares_both_options() {
    assert_eq!(cost_of_getting_to_capacity(ratio(90, 26), 26), 41_400);
    assert_eq!(capacity_plan(ratio(90, 26), 26), (CapacityPlan::MoveBackAndAdd, 26));
}

// Far below the baseline the junk branch's panel count goes negative and
// lowers its cost, exactly as the ceiling arithmetic dictates.
#[test]
fn below_baseline_negative_panel_count() {
    // a = 10/26 with 26 panels: ceil((10 - 16) / 2.5) = ceil(-2.4) = -2 new
    // panels, so junking "costs" 1500 - 2 * 1400 = -1300.
    assert_eq!(cost_of_getting_to_capacity(ratio(10, 26), 26), -1300);
}
