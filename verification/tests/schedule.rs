//! Tick deadlines and the watchdog for missing frames.

use tibia_bot::loop_::schedule::{
    compute_tick_sleep, rolling_avg, step_no_frame_watchdog, takes_command, NoFrameStep,
    NO_FRAME_PAUSE_TICKS,
};

const MS: u64 = 1_000_000;
const START: u64 = 5_000 * MS;

#[test]
fn happy_path_no_drift() {
    let budget = 33 * MS;
    let mut next_tick = START;
    for i in 1..=10 {
        let now = next_tick;
        let (sleep, new_next) = compute_tick_sleep(next_tick, budget, now);
        next_tick = new_next;
        assert_eq!(sleep, budget, "iter {i}");
        assert_eq!(next_tick, START + budget * i, "iter {i}");
    }
}

#[test]
fn tick_overrun_resets_deadline_to_now() {
    let budget = 33 * MS;
    let now = START + 50 * MS;
    let (sleep, new_next) = compute_tick_sleep(START, budget, now);
    assert_eq!(sleep, 0);
    assert_eq!(new_next, now);
}

#[test]
fn no_catch_up_after_overrun() {
    let budget = 33 * MS;
    let mut next_tick = START;
    let now1 = START + 53 * MS;
    let (sleep1, nn1) = compute_tick_sleep(next_tick, budget, now1);
    assert_eq!(sleep1, 0);
    next_tick = nn1;
    let now2 = next_tick;
    let (sleep2, nn2) = compute_tick_sleep(next_tick, budget, now2);
    assert_eq!(sleep2, budget);
    assert_eq!(nn2, now1 + budget);
}

#[test]
fn partial_tick_sleeps_remaining_time() {
    let budget = 33 * MS;
    let now = START + 10 * MS;
    let (sleep, new_next) = compute_tick_sleep(START, budget, now);
    assert_eq!(sleep, 23 * MS);
    assert_eq!(new_next, START + budget);
}

#[test]
fn simulate_run_counts_ticks_and_overruns() {
    let budget = 33 * MS;
    let mut next_tick = START;
    let mut ticks_total = 0u64;
    let mut ticks_overrun = 0u64;
    let tick_procs = [10u64, 50, 20, 100, 5];
    let mut clock = START;
    for proc_ms in tick_procs {
        clock += proc_ms * MS;
        ticks_total += 1;
        if proc_ms > 33 {
            ticks_overrun += 1;
        }
        let (sleep, nn) = compute_tick_sleep(next_tick, budget, clock);
        next_tick = nn;
        clock += sleep;
    }
    assert_eq!(ticks_total, 5);
    assert_eq!(ticks_overrun, 2);
}

#[test]
fn triggers_pause_at_threshold() {
    let mut counter: u32 = 0;
    for i in 1..NO_FRAME_PAUSE_TICKS {
        let step = step_no_frame_watchdog(&mut counter, false, NO_FRAME_PAUSE_TICKS);
        assert_eq!(step, NoFrameStep::Accumulating, "tick {i}");
        assert_eq!(counter, i, "tick {i}");
    }
    let step = step_no_frame_watchdog(&mut counter, false, NO_FRAME_PAUSE_TICKS);
    assert_eq!(step, NoFrameStep::TriggerPause);
    assert_eq!(counter, 0);
    let step = step_no_frame_watchdog(&mut counter, false, NO_FRAME_PAUSE_TICKS);
    assert_eq!(step, NoFrameStep::Accumulating);
    assert_eq!(counter, 1);
}

#[test]
fn does_not_trigger_below_threshold() {
    let mut counter: u32 = 0;
    for i in 1..=100u32 {
        let step = step_no_frame_watchdog(&mut counter, false, NO_FRAME_PAUSE_TICKS);
        assert_eq!(step, NoFrameStep::Accumulating, "tick {i}");
        assert_eq!(counter, i);
    }
    assert!(counter < NO_FRAME_PAUSE_TICKS);
}

#[test]
fn frame_resets_counter() {
    let mut counter: u32 = 50;
    let step = step_no_frame_watchdog(&mut counter, true, NO_FRAME_PAUSE_TICKS);
    assert_eq!(step, NoFrameStep::FrameOk);
    assert_eq!(counter, 0);
}

#[test]
fn single_frame_prevents_trigger() {
    let mut counter: u32 = 0;
    for _ in 0..NO_FRAME_PAUSE_TICKS - 1 {
        step_no_frame_watchdog(&mut counter, false, NO_FRAME_PAUSE_TICKS);
    }
    assert_eq!(counter, NO_FRAME_PAUSE_TICKS - 1);
    let step = step_no_frame_watchdog(&mut counter, true, NO_FRAME_PAUSE_TICKS);
    assert_eq!(step, NoFrameStep::FrameOk);
    assert_eq!(counter, 0);
    for _ in 0..NO_FRAME_PAUSE_TICKS - 1 {
        let step = step_no_frame_watchdog(&mut counter, false, NO_FRAME_PAUSE_TICKS);
        assert_eq!(step, NoFrameStep::Accumulating);
    }
    assert_eq!(counter, NO_FRAME_PAUSE_TICKS - 1);
}

#[test]
fn frame_after_trigger_recovers() {
    let mut counter: u32 = 0;
    for _ in 0..NO_FRAME_PAUSE_TICKS {
        step_no_frame_watchdog(&mut counter, false, NO_FRAME_PAUSE_TICKS);
    }
    assert_eq!(counter, 0);
    let step = step_no_frame_watchdog(&mut counter, true, NO_FRAME_PAUSE_TICKS);
    assert_eq!(step, NoFrameStep::FrameOk);
    assert_eq!(counter, 0);
}

#[test]
fn threshold_constant_is_four_seconds_at_30hz() {
    let seconds = NO_FRAME_PAUSE_TICKS as f64 / 30.0;
    assert!((seconds - 4.0).abs() < 0.001);
}

#[test]
fn a_rolling_average_moves_towards_the_new_value() {
    assert_eq!(rolling_avg(0, 40, 0), 40);
    assert_eq!(rolling_avg(0, 40, 4), 10);
    assert_eq!(rolling_avg(100, 20, 4), 80);
    assert_eq!(rolling_avg(100, 100, 10), 100);
}

#[test]
fn a_tick_takes_one_command() {
    assert!(takes_command(0));
    assert!(!takes_command(1));
}
