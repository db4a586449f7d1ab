use egui_wgpu::timing::FrameTimingWindow;

#[test]
fn fps_empty_window_is_zero() {
    let w = FrameTimingWindow::new();
    assert_eq!(w.fps_millihertz(), 0);
    assert_eq!(w.cpu_time_nanos(), 0);
    assert_eq!(w.len(), 0);
}

#[test]
fn fps_single_sample_is_zero() {
    let mut w = FrameTimingWindow::new();
    w.add(0, 1_000_000);
    assert_eq!(w.fps_millihertz(), 0);
}

#[test]
fn fps_matches_n_minus_one_over_span() {
    let mut w = FrameTimingWindow::new();
    // Five samples spanning exactly one second.
    w.add(0, 1_000_000);
    w.add(250_000_000, 1_000_000);
    w.add(500_000_000, 1_000_000);
    w.add(750_000_000, 1_000_000);
    w.add(1_000_000_000, 1_000_000);
    // (5 - 1) / 1 s = 4 Hz = 4000 mHz.
    assert_eq!(w.fps_millihertz(), 4000);
}

#[test]
fn fps_zero_span_is_zero() {
    let mut w = FrameTimingWindow::new();
    w.add(5, 1);
    w.add(5, 1);
    assert_eq!(w.fps_millihertz(), 0);
}

#[test]
fn cpu_time_is_mean_duration() {
    let mut w = FrameTimingWindow::new();
    w.add(0, 10);
    w.add(1, 20);
    w.add(2, 30);
    assert_eq!(w.cpu_time_nanos(), 20);
}

#[test]
fn old_samples_are_evicted_by_age() {
    let mut w = FrameTimingWindow::new();
    w.add(0, 7);
    w.add(3_000_000_000, 9);
    // The first sample is more than one second older than `now`.
    assert_eq!(w.len(), 1);
    assert_eq!(w.cpu_time_nanos(), 9);
}

#[test]
fn sample_exactly_at_age_limit_is_kept() {
    let mut w = FrameTimingWindow::new();
    w.add(0, 7);
    w.add(1_000_000_000, 9);
    // front + max_age == now is not strictly older: both stay.
    assert_eq!(w.len(), 2);
}

#[test]
fn window_is_bounded_by_capacity() {
    let mut w = FrameTimingWindow::new();
    for i in 0..1100u64 {
        w.add(i, 1);
    }
    assert_eq!(w.len(), 1000);
}
