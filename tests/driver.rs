use bevybench::{DriverState, FrameAction, FrameCounter, BENCHMARK_FRAMES, EXIT_SUCCESS};

fn update_times(c: &mut FrameCounter, n: u32) -> Vec<FrameAction> {
    (0..n).map(|_| c.on_frame_update()).collect()
}

#[test]
fn zero_invocations_running() {
    let c = FrameCounter::benchmark();
    assert_eq!(c.state(), DriverState::Running);
    assert_eq!(c.count(), 0);
    assert_eq!(c.limit(), 240);
    assert!(!c.is_terminated());
}

#[test]
fn two_hundred_thirty_nine_invocations_running() {
    let mut c = FrameCounter::benchmark();
    let actions = update_times(&mut c, 239);
    assert!(actions.iter().all(|a| *a == FrameAction::Continue));
    assert_eq!(c.state(), DriverState::Running);
    assert_eq!(c.count(), 239);
}

#[test]
fn two_hundred_forty_invocations_terminated() {
    let mut c = FrameCounter::benchmark();
    let actions = update_times(&mut c, 240);
    assert!(actions[..239].iter().all(|a| *a == FrameAction::Continue));
    assert_eq!(actions[239], FrameAction::Exit(0));
    assert_eq!(EXIT_SUCCESS, 0);
    assert_eq!(c.state(), DriverState::Terminated);
    assert_eq!(c.count(), 240);
    assert_eq!(BENCHMARK_FRAMES, 240);
}

#[test]
fn count_rises_by_one_per_update() {
    let mut c = FrameCounter::new(10);
    for expected in 1..10u32 {
        assert_eq!(c.on_frame_update(), FrameAction::Continue);
        assert_eq!(c.count(), expected);
    }
}

#[test]
fn termination_index_is_the_same_every_run() {
    let first = update_times(&mut FrameCounter::new(7), 12);
    let second = update_times(&mut FrameCounter::new(7), 12);
    assert_eq!(first, second);
    let index = first.iter().position(|a| *a == FrameAction::Exit(0));
    assert_eq!(index, Some(6));
}

#[test]
fn terminated_counter_stays_terminated() {
    let mut c = FrameCounter::new(3);
    update_times(&mut c, 3);
    assert_eq!(c.on_frame_update(), FrameAction::Exit(0));
    assert_eq!(c.on_frame_update(), FrameAction::Exit(0));
    assert_eq!(c.count(), 3);
    assert_eq!(c.state(), DriverState::Terminated);
}

#[test]
fn zero_threshold_exits_on_first_update() {
    let mut c = FrameCounter::new(0);
    assert_eq!(c.state(), DriverState::Running);
    assert_eq!(c.on_frame_update(), FrameAction::Exit(0));
    assert_eq!(c.count(), 1);
}

#[test]
fn threshold_of_one_exits_on_first_update() {
    let mut c = FrameCounter::new(1);
    assert_eq!(c.on_frame_update(), FrameAction::Exit(0));
    assert_eq!(c.count(), 1);
    assert!(c.is_terminated());
}

#[test]
fn largest_threshold_does_not_overflow() {
    let mut c = FrameCounter::new(u32::MAX);
    assert_eq!(c.limit(), u32::MAX);
    assert_eq!(c.on_frame_update(), FrameAction::Continue);
    assert_eq!(c.count(), 1);
}
