use render_bridge::driver::{DriverPhase, FrameDriver};

fn run_success_cycle(d: &mut FrameDriver) {
    d.begin_update();
    d.update_succeeded();
    d.begin_recording();
    d.batches_submitted();
    d.finish_frame();
}

#[test]
fn fresh_driver_starts_idle_at_frame_zero() {
    let d = FrameDriver::new();
    assert_eq!(d.frame_index, 0);
    assert_eq!(d.completed_frame_index, None);
    assert_eq!(d.phase, DriverPhase::Idle);
    assert!(!d.first_update_done);
}

#[test]
fn diagnostics_flag_is_one_shot() {
    let mut d = FrameDriver::new();
    let first = d.begin_update();
    assert!(first.enable_diagnostics);
    d.update_succeeded();
    d.begin_recording();
    d.batches_submitted();
    d.finish_frame();

    let second = d.begin_update();
    assert!(!second.enable_diagnostics);
}

#[test]
fn successful_cycle_advances_counters() {
    let mut d = FrameDriver::new();

    let payload = d.begin_update();
    assert_eq!(payload.frame_index, 0);
    assert_eq!(payload.completed_frame_index, None);

    d.update_succeeded();
    assert_eq!(d.phase, DriverPhase::BatchReady);
    d.begin_recording();
    assert_eq!(d.phase, DriverPhase::Recording);
    d.batches_submitted();
    assert_eq!(d.phase, DriverPhase::Submitted);
    d.finish_frame();

    assert_eq!(d.phase, DriverPhase::Idle);
    assert_eq!(d.frame_index, 1);
    assert_eq!(d.completed_frame_index, Some(0));
}

#[test]
fn completed_never_passes_frame_index() {
    let mut d = FrameDriver::new();
    for _ in 0..5 {
        if let Some(c) = d.completed_frame_index {
            assert!(c <= d.frame_index);
        }
        run_success_cycle(&mut d);
        if let Some(c) = d.completed_frame_index {
            assert!(c <= d.frame_index);
        }
    }
    assert_eq!(d.frame_index, 5);
    assert_eq!(d.completed_frame_index, Some(4));
}

#[test]
fn frame_index_increases_by_one_per_successful_cycle() {
    let mut d = FrameDriver::new();
    for expected in 0..4u64 {
        assert_eq!(d.frame_index, expected);
        run_success_cycle(&mut d);
        assert_eq!(d.frame_index, expected + 1);
    }
}

#[test]
fn failed_update_drops_the_frame_and_keeps_counters() {
    let mut d = FrameDriver::new();
    run_success_cycle(&mut d);

    let frame_before = d.frame_index;
    let completed_before = d.completed_frame_index;
    d.begin_update();
    d.update_failed();

    assert_eq!(d.phase, DriverPhase::Idle);
    assert_eq!(d.frame_index, frame_before);
    assert_eq!(d.completed_frame_index, completed_before);

    // The next tick retries the same frame and can succeed.
    run_success_cycle(&mut d);
    assert_eq!(d.frame_index, frame_before + 1);
    assert_eq!(d.completed_frame_index, Some(frame_before));
}
