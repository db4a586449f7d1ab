use egui_wgpu::backend::{ControlFlowCommand, FrameScheduler, RunMode, WGpuBackend};

#[test]
fn run_mode_is_stored_and_changed() {
    let mut b = WGpuBackend::new(RunMode::Reactive);
    assert_eq!(b.run_mode(), RunMode::Reactive);
    b.set_run_mode(RunMode::Continuous);
    assert_eq!(b.run_mode(), RunMode::Continuous);
}

#[test]
fn quit_raises_the_flag() {
    let mut b = WGpuBackend::new(RunMode::Continuous);
    assert!(!b.quit_requested());
    b.quit();
    assert!(b.quit_requested());
}

#[test]
fn backend_reports_timing_figures() {
    let mut b = WGpuBackend::new(RunMode::Continuous);
    assert_eq!(b.fps(), 0);
    assert_eq!(b.cpu_time(), 0);
    b.add_frame_sample(0, 2_000_000);
    b.add_frame_sample(500_000_000, 4_000_000);
    b.add_frame_sample(1_000_000_000, 6_000_000);
    // (3 - 1) / 1 s = 2 Hz = 2000 mHz; mean CPU time 4 ms.
    assert_eq!(b.fps(), 2000);
    assert_eq!(b.cpu_time(), 4_000_000);
}

fn render_one_frame(s: &mut FrameScheduler) {
    s.wake();
    s.begin_frame();
}

#[test]
fn continuous_mode_always_schedules_another_frame() {
    let mut s = FrameScheduler::new();
    render_one_frame(&mut s);
    let d = s.finish_frame(false, RunMode::Continuous, false);
    assert!(d.request_redraw);
    assert_eq!(d.control, ControlFlowCommand::Poll);
    // And again, unconditionally, with a repaint pending.
    s.begin_frame();
    let d = s.finish_frame(false, RunMode::Continuous, true);
    assert!(d.request_redraw);
    assert_eq!(d.control, ControlFlowCommand::Poll);
}

#[test]
fn reactive_mode_with_nothing_pending_blocks() {
    let mut s = FrameScheduler::new();
    render_one_frame(&mut s);
    let d = s.finish_frame(false, RunMode::Reactive, false);
    assert!(!d.request_redraw);
    assert_eq!(d.control, ControlFlowCommand::Wait);
}

#[test]
fn reactive_mode_with_repaint_pending_schedules_one_frame() {
    let mut s = FrameScheduler::new();
    render_one_frame(&mut s);
    let d = s.finish_frame(false, RunMode::Reactive, true);
    assert!(d.request_redraw);
    assert_eq!(d.control, ControlFlowCommand::Wait);
}

#[test]
fn quit_signal_exits_in_any_mode() {
    let mut s = FrameScheduler::new();
    render_one_frame(&mut s);
    let d = s.finish_frame(true, RunMode::Continuous, true);
    assert_eq!(d.control, ControlFlowCommand::Exit);
    assert!(!d.request_redraw);
}

#[test]
fn persisted_state_is_flushed_exactly_once() {
    let mut s = FrameScheduler::new();
    render_one_frame(&mut s);
    let _ = s.finish_frame(true, RunMode::Reactive, false);
    assert!(s.should_persist());
    assert!(!s.should_persist());
}

#[test]
fn scheduler_phases_follow_the_state_machine() {
    let mut s = FrameScheduler::new();
    // Idle -> FrameRequested -> Rendering -> Idle (reactive, nothing pending).
    s.wake();
    s.begin_frame();
    let _ = s.finish_frame(false, RunMode::Reactive, false);
    // Parked again: a new event wakes it.
    s.wake();
    s.begin_frame();
    let _ = s.finish_frame(false, RunMode::Continuous, false);
    // Continuous: next frame is already requested; waking changes nothing.
    s.wake();
    s.begin_frame();
    let d = s.finish_frame(true, RunMode::Continuous, false);
    assert_eq!(d.control, ControlFlowCommand::Exit);
    assert!(s.should_persist());
}
