use double_pendulum::scheduler::{Mode, Scheduler, StepPlan, FIXED_STEP_NANOS};

#[test]
fn new_scheduler_starts_real_time_with_empty_accumulator() {
    let s = Scheduler::new();
    assert_eq!(s.mode, Mode::RealTime);
    assert_eq!(s.accumulator_nanos, 0);
}

#[test]
fn toggle_flips_between_the_two_modes() {
    let mut s = Scheduler::new();
    s.toggle_mode();
    assert_eq!(s.mode, Mode::Precision);
    s.toggle_mode();
    assert_eq!(s.mode, Mode::RealTime);
}

#[test]
fn real_time_tick_is_one_step_of_the_raw_delta() {
    let mut s = Scheduler::new();
    let plan = s.on_tick(16_666_667);
    assert_eq!(plan, StepPlan::Single { dt_nanos: 16_666_667 });
    assert_eq!(s.accumulator_nanos, 0);
    assert_eq!(s.mode, Mode::RealTime);
}

#[test]
fn precision_tick_runs_whole_steps_and_keeps_the_residual() {
    let mut s = Scheduler::new();
    s.toggle_mode();
    let plan = s.on_tick(500_000);
    assert_eq!(plan, StepPlan::Fixed { count: 2 });
    assert_eq!(s.accumulator_nanos, 100_000);
    let plan = s.on_tick(100_000);
    assert_eq!(plan, StepPlan::Fixed { count: 1 });
    assert_eq!(s.accumulator_nanos, 0);
}

#[test]
fn precision_tick_below_one_step_only_accumulates() {
    let mut s = Scheduler::new();
    s.toggle_mode();
    let plan = s.on_tick(199_999);
    assert_eq!(plan, StepPlan::Fixed { count: 0 });
    assert_eq!(s.accumulator_nanos, 199_999);
}

#[test]
fn precision_stall_is_caught_up_in_one_burst() {
    let mut s = Scheduler::new();
    s.toggle_mode();
    // A full second of stalled wall clock: five thousand fixed steps at once.
    let plan = s.on_tick(1_000_000_000);
    assert_eq!(plan, StepPlan::Fixed { count: 5000 });
    assert_eq!(s.accumulator_nanos, 0);
}

#[test]
fn accumulator_survives_a_mode_toggle() {
    let mut s = Scheduler::new();
    s.toggle_mode();
    s.on_tick(150_000);
    assert_eq!(s.accumulator_nanos, 150_000);
    s.toggle_mode();
    assert_eq!(s.accumulator_nanos, 150_000);
    s.on_tick(70_000);
    assert_eq!(s.accumulator_nanos, 150_000);
    s.toggle_mode();
    let plan = s.on_tick(70_000);
    assert_eq!(plan, StepPlan::Fixed { count: 1 });
    assert_eq!(s.accumulator_nanos, 20_000);
}

fn fixed_count(plan: StepPlan) -> u64 {
    match plan {
        StepPlan::Fixed { count } => count,
        StepPlan::Single { .. } => panic!("expected a fixed-step plan"),
    }
}

#[test]
fn splitting_a_delay_across_ticks_changes_nothing() {
    // Two deltas summing to exactly two fixed steps, split three ways: the
    // total number of steps and the final residual never depend on the split.
    let splits: [(u64, u64); 3] = [(300_000, 100_000), (250_000, 150_000), (1, 399_999)];
    for (a, b) in splits {
        assert_eq!(a + b, 2 * FIXED_STEP_NANOS);
        let mut split = Scheduler::new();
        split.toggle_mode();
        let total = fixed_count(split.on_tick(a)) + fixed_count(split.on_tick(b));
        let mut lump = Scheduler::new();
        lump.toggle_mode();
        let lump_total = fixed_count(lump.on_tick(a + b));
        assert_eq!(total, 2);
        assert_eq!(lump_total, 2);
        assert_eq!(split.accumulator_nanos, 0);
        assert_eq!(lump.accumulator_nanos, 0);
    }
}

#[test]
fn splitting_a_delay_keeps_the_residual_too() {
    // A sum that is not a whole number of steps: both splits agree with the
    // lump tick on the step count and on the leftover residual.
    let a: u64 = 123_456;
    let b: u64 = 345_678;
    let mut split = Scheduler::new();
    split.toggle_mode();
    let total = fixed_count(split.on_tick(a)) + fixed_count(split.on_tick(b));
    let mut lump = Scheduler::new();
    lump.toggle_mode();
    let lump_total = fixed_count(lump.on_tick(a + b));
    assert_eq!(total, lump_total);
    assert_eq!(total, 2);
    assert_eq!(split.accumulator_nanos, lump.accumulator_nanos);
    assert_eq!(split.accumulator_nanos, 69_134);
}
