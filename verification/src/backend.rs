//! Frame scheduler and the control surface handed to the hosted application.
//!
//! The event loop itself lives in the platform layer; this module holds the
//! decisions it acts on: the redraw policy after each frame, the scheduler's
//! phase transitions, and the backend capability (run mode, quit flag, frame
//! timing figures).

use crate::timing::{
    spec_fps_millihertz, spec_mean_duration, spec_flush, FrameTimingWindow, MAX_AGE_NANOS,
};
use vstd::prelude::*;

verus! {

/// Redraw cadence requested by the hosted application.
#[derive(Clone, Copy, Debug, PartialEq, Eq, Structural)]
pub enum RunMode {
    /// Request the next frame immediately, every tick.
    Continuous,
    /// Request a frame only on new events or when a repaint is pending.
    Reactive,
}

/// What the platform event loop should do after the current tick.
#[derive(Clone, Copy, Debug, PartialEq, Eq, Structural)]
pub enum ControlFlowCommand {
    /// Wake again immediately (busy poll).
    Poll,
    /// Block until the next platform event.
    Wait,
    /// Leave the event loop.
    Exit,
}

/// Wait policy plus whether another redraw must be scheduled now.
#[derive(Clone, Copy, Debug, PartialEq, Eq, Structural)]
pub struct FrameDecision {
    pub control: ControlFlowCommand,
    pub request_redraw: bool,
}

/// Policy applied after every rendered frame: a quit signal exits; continuous
/// mode always schedules another frame; reactive mode schedules one only when
/// the GUI library reported that a repaint is pending.
pub open spec fn spec_frame_decision(quit: bool, mode: RunMode, needs_repaint: bool)
    -> FrameDecision {
    if quit {
        FrameDecision { control: ControlFlowCommand::Exit, request_redraw: false }
    } else if mode is Continuous {
        FrameDecision { control: ControlFlowCommand::Poll, request_redraw: true }
    } else {
        FrameDecision { control: ControlFlowCommand::Wait, request_redraw: needs_repaint }
    }
}

/// In continuous mode every finished frame schedules another, unconditionally;
/// in reactive mode a frame with nothing pending parks the loop until the next
/// platform event, and a pending repaint schedules exactly one more frame.
pub proof fn lemma_run_mode_policy(needs_repaint: bool)
    ensures
        spec_frame_decision(false, RunMode::Continuous, needs_repaint).request_redraw,
        spec_frame_decision(false, RunMode::Continuous, needs_repaint).control
            is Poll,
        spec_frame_decision(false, RunMode::Reactive, needs_repaint).request_redraw
            == needs_repaint,
        spec_frame_decision(false, RunMode::Reactive, needs_repaint).control is Wait,
        spec_frame_decision(true, RunMode::Continuous, needs_repaint).control is Exit,
        spec_frame_decision(true, RunMode::Reactive, needs_repaint).control is Exit,
{
}

/// Phase of the frame scheduler's state machine.
#[derive(Clone, Copy, Debug, PartialEq, Eq, Structural)]
pub enum SchedulerPhase {
    /// Blocked, waiting for a platform event.
    Idle,
    /// A redraw has been scheduled but not started.
    FrameRequested,
    /// The GUI pass and render path of one frame are running.
    Rendering,
    /// A quit signal was taken; persisted state must be flushed once.
    Exiting,
}

/// Explicit state machine that drives the platform event loop.
pub struct FrameScheduler {
    phase: SchedulerPhase,
    flushed: bool,
}

impl FrameScheduler {
    /// Current phase.
    pub closed spec fn spec_phase(self) -> SchedulerPhase {
        self.phase
    }

    /// Whether persisted state has already been flushed.
    pub closed spec fn spec_flushed(self) -> bool {
        self.flushed
    }

    /// A scheduler parked in `Idle`, nothing flushed yet.
    pub fn new() -> (r: FrameScheduler)
        ensures
            r.spec_phase() is Idle,
            !r.spec_flushed(),
    {
        FrameScheduler { phase: SchedulerPhase::Idle, flushed: false }
    }

    /// A platform event or redraw request arrived: an idle scheduler moves to
    /// `FrameRequested`; any other phase is unchanged.
    pub fn wake(&mut self)
        ensures
            final(self).spec_phase() == if old(self).spec_phase() is Idle {
                SchedulerPhase::FrameRequested
            } else {
                old(self).spec_phase()
            },
            final(self).spec_flushed() == old(self).spec_flushed(),
    {
        if matches!(self.phase, SchedulerPhase::Idle) {
            self.phase = SchedulerPhase::FrameRequested;
        }
    }

    /// The requested frame starts: the GUI pass and render path run next.
    pub fn begin_frame(&mut self)
        requires
            old(self).spec_phase() is FrameRequested,
        ensures
            final(self).spec_phase() is Rendering,
            final(self).spec_flushed() == old(self).spec_flushed(),
    {
        self.phase = SchedulerPhase::Rendering;
    }

    /// The frame finished: applies [`spec_frame_decision`] and moves to
    /// `Exiting` (on quit), `FrameRequested` (another frame is due) or `Idle`.
    pub fn finish_frame(&mut self, quit: bool, mode: RunMode, needs_repaint: bool)
        -> (d: FrameDecision)
        requires
            old(self).spec_phase() is Rendering,
        ensures
            d == spec_frame_decision(quit, mode, needs_repaint),
            final(self).spec_phase() == if quit {
                SchedulerPhase::Exiting
            } else if spec_frame_decision(quit, mode, needs_repaint).request_redraw {
                SchedulerPhase::FrameRequested
            } else {
                SchedulerPhase::Idle
            },
            final(self).spec_flushed() == old(self).spec_flushed(),
    {
        if quit {
            self.phase = SchedulerPhase::Exiting;
            FrameDecision { control: ControlFlowCommand::Exit, request_redraw: false }
        } else if matches!(mode, RunMode::Continuous) {
            self.phase = SchedulerPhase::FrameRequested;
            FrameDecision { control: ControlFlowCommand::Poll, request_redraw: true }
        } else {
            if needs_repaint {
                self.phase = SchedulerPhase::FrameRequested;
            } else {
                self.phase = SchedulerPhase::Idle;
            }
            FrameDecision { control: ControlFlowCommand::Wait, request_redraw: needs_repaint }
        }
    }

    /// A destroy signal from the platform forces the scheduler to `Exiting`,
    /// whatever it was doing.
    pub fn exit_now(&mut self)
        ensures
            final(self).spec_phase() is Exiting,
            final(self).spec_flushed() == old(self).spec_flushed(),
    {
        self.phase = SchedulerPhase::Exiting;
    }

    /// Whether persisted state (window geometry, GUI memory) must be written
    /// now.  Returns `true` exactly once per run, on the first call while
    /// exiting: the flush happens exactly once.
    pub fn should_persist(&mut self) -> (r: bool)
        requires
            old(self).spec_phase() is Exiting,
        ensures
            r == !old(self).spec_flushed(),
            final(self).spec_flushed(),
            final(self).spec_phase() == old(self).spec_phase(),
    {
        let first = !self.flushed;
        self.flushed = true;
        first
    }
}

/// The control surface the hosted application holds over the scheduler:
/// run mode, quit signal, and smoothed frame-timing figures.
pub struct WGpuBackend {
    frame_times: FrameTimingWindow,
    quit: bool,
    run_mode: RunMode,
}

impl WGpuBackend {
    /// The retained frame-time samples.
    pub closed spec fn spec_frame_times(self) -> Seq<(u64, u64)> {
        self.frame_times.samples_seq()
    }

    /// Whether the application has asked to quit.
    pub closed spec fn spec_quit(self) -> bool {
        self.quit
    }

    /// The current run mode.
    pub closed spec fn spec_run_mode(self) -> RunMode {
        self.run_mode
    }

    /// Well-formed: the timing window is well-formed.
    pub closed spec fn wf(self) -> bool {
        self.frame_times.wf()
    }

    /// A backend in the given run mode with an empty timing window.
    pub fn new(run_mode: RunMode) -> (r: WGpuBackend)
        ensures
            r.spec_run_mode() == run_mode,
            !r.spec_quit(),
            r.spec_frame_times() == Seq::<(u64, u64)>::empty(),
            r.wf(),
    {
        WGpuBackend { frame_times: FrameTimingWindow::new(), quit: false, run_mode }
    }

    /// The current run mode.
    pub fn run_mode(&self) -> (r: RunMode)
        ensures
            r == self.spec_run_mode(),
    {
        self.run_mode
    }

    /// Changes the run mode; nothing else changes.
    pub fn set_run_mode(&mut self, run_mode: RunMode)
        ensures
            final(self).spec_run_mode() == run_mode,
            final(self).spec_quit() == old(self).spec_quit(),
            final(self).spec_frame_times() == old(self).spec_frame_times(),
            final(self).wf() == old(self).wf(),
    {
        self.run_mode = run_mode;
    }

    /// Raises the quit signal; the scheduler exits on the next tick.
    pub fn quit(&mut self)
        ensures
            final(self).spec_quit(),
            final(self).spec_run_mode() == old(self).spec_run_mode(),
            final(self).spec_frame_times() == old(self).spec_frame_times(),
            final(self).wf() == old(self).wf(),
    {
        self.quit = true;
    }

    /// Whether the application has asked to quit.
    pub fn quit_requested(&self) -> (r: bool)
        ensures
            r == self.spec_quit(),
    {
        self.quit
    }

    /// Records the CPU time of the frame that just finished.
    pub fn add_frame_sample(&mut self, now_nanos: u64, duration_nanos: u64)
        requires
            old(self).wf(),
            old(self).spec_frame_times().len() > 0 ==> old(self).spec_frame_times().last().0
                <= now_nanos,
            now_nanos + MAX_AGE_NANOS <= u64::MAX,
        ensures
            final(self).spec_frame_times() == spec_flush(
                old(self).spec_frame_times().push((now_nanos, duration_nanos)),
                now_nanos,
            ),
            final(self).wf(),
            final(self).spec_quit() == old(self).spec_quit(),
            final(self).spec_run_mode() == old(self).spec_run_mode(),
    {
        self.frame_times.add(now_nanos, duration_nanos);
    }

    /// Mean CPU time of the GUI pass over the timing window, in nanoseconds;
    /// zero when no sample is retained.
    pub fn cpu_time(&self) -> (r: u64)
        requires
            self.wf(),
        ensures
            r == spec_mean_duration(self.spec_frame_times()),
    {
        self.frame_times.cpu_time_nanos()
    }

    /// Frames per second over the timing window, in millihertz; zero (never a
    /// division by zero) when fewer than two samples are retained.
    pub fn fps(&self) -> (r: u64)
        requires
            self.wf(),
        ensures
            r == spec_fps_millihertz(self.spec_frame_times()),
    {
        self.frame_times.fps_millihertz()
    }
}

} // verus!
