//! Render pipeline: the lifecycle state machine that decides, from each
//! event the surrounding process reports, whether another tick may run, and
//! the per-tick planner that assembles every segment one frame draws.

use crate::frame::{frames_in_range, CaptureError, SampleFrame};
use crate::mapper::{column_count_spec, stride_spec};
use crate::render::{
    config_wf, spectrum_plan, spectrum_plan_spec, wave_plan, wave_plan_spec, Channel,
    RenderConfig, Segment,
};
use vstd::prelude::*;

verus! {

/// Lifecycle of the pipeline: not yet attached, ticking, or shut down for
/// good.
#[derive(Clone, Copy, PartialEq, Eq, Structural, Debug)]
pub enum PipelineState {
    Idle,
    Rendering,
    Terminated,
}

/// What the surrounding process reports back after acting for the pipeline.
#[derive(Clone, Copy, PartialEq, Eq, Structural, Debug)]
pub enum PipelineEvent {
    /// Canvas and capture source both attached at startup.
    AttachSucceeded,
    /// Canvas or capture source could not be attached.
    AttachFailed,
    /// One full tick — capture, analyze, draw, present — went through.
    TickCompleted,
    /// The capture read failed; carries why.
    CaptureFailed(CaptureError),
    /// The canvas could not present the finished frame.
    PresentFailed,
    /// An external shutdown was requested.
    ShutdownRequested,
}

/// The fatal error classes a terminated pipeline reports.
#[derive(Clone, Copy, PartialEq, Eq, Structural, Debug)]
pub enum PipelineError {
    /// Canvas or capture attach failed at startup.
    Setup,
    /// A capture read failed mid-run.
    Capture(CaptureError),
    /// Presenting a frame failed mid-run.
    Render,
}

impl PipelineError {
    /// Short description for the fatal report at process exit.
    pub fn describe(&self) -> (r: &'static str)
        ensures
            *self is Setup ==> r@ == "could not attach the canvas or the capture source"@,
            *self matches PipelineError::Capture(_) ==> r@ == "capture read failed"@,
            *self is Render ==> r@ == "could not present the frame"@,
    {
        match self {
            PipelineError::Setup => "could not attach the canvas or the capture source",
            PipelineError::Capture(_) => "capture read failed",
            PipelineError::Render => "could not present the frame",
        }
    }
}

/// The transition table: attaching starts the render loop, every completed
/// tick allows the next, and any failure or shutdown request terminates the
/// pipeline for good.  An attach report outside `Idle` changes nothing.
pub open spec fn step_spec(s: PipelineState, e: PipelineEvent) -> PipelineState {
    match s {
        PipelineState::Idle => match e {
            PipelineEvent::AttachSucceeded => PipelineState::Rendering,
            PipelineEvent::AttachFailed => PipelineState::Terminated,
            PipelineEvent::TickCompleted => PipelineState::Idle,
            PipelineEvent::CaptureFailed(_) => PipelineState::Terminated,
            PipelineEvent::PresentFailed => PipelineState::Terminated,
            PipelineEvent::ShutdownRequested => PipelineState::Terminated,
        },
        PipelineState::Rendering => match e {
            PipelineEvent::AttachSucceeded => PipelineState::Rendering,
            PipelineEvent::AttachFailed => PipelineState::Rendering,
            PipelineEvent::TickCompleted => PipelineState::Rendering,
            PipelineEvent::CaptureFailed(_) => PipelineState::Terminated,
            PipelineEvent::PresentFailed => PipelineState::Terminated,
            PipelineEvent::ShutdownRequested => PipelineState::Terminated,
        },
        PipelineState::Terminated => PipelineState::Terminated,
    }
}

/// The fatal error, if any, that an event carries.
pub open spec fn error_of_spec(e: PipelineEvent) -> Option<PipelineError> {
    match e {
        PipelineEvent::AttachFailed => Some(PipelineError::Setup),
        PipelineEvent::CaptureFailed(c) => Some(PipelineError::Capture(c)),
        PipelineEvent::PresentFailed => Some(PipelineError::Render),
        _ => None,
    }
}

/// Only a rendering pipeline may touch the canvas.
pub open spec fn can_draw_spec(s: PipelineState) -> bool {
    s is Rendering
}

/// Advance the pipeline by one reported event.
pub fn step(s: PipelineState, e: PipelineEvent) -> (next: PipelineState)
    ensures
        next == step_spec(s, e),
{
    match s {
        PipelineState::Idle => match e {
            PipelineEvent::AttachSucceeded => PipelineState::Rendering,
            PipelineEvent::AttachFailed => PipelineState::Terminated,
            PipelineEvent::TickCompleted => PipelineState::Idle,
            PipelineEvent::CaptureFailed(_) => PipelineState::Terminated,
            PipelineEvent::PresentFailed => PipelineState::Terminated,
            PipelineEvent::ShutdownRequested => PipelineState::Terminated,
        },
        PipelineState::Rendering => match e {
            PipelineEvent::CaptureFailed(_) => PipelineState::Terminated,
            PipelineEvent::PresentFailed => PipelineState::Terminated,
            PipelineEvent::ShutdownRequested => PipelineState::Terminated,
            _ => PipelineState::Rendering,
        },
        PipelineState::Terminated => PipelineState::Terminated,
    }
}

/// The fatal error, if any, that an event carries; what a terminated process
/// reports.
pub fn error_of(e: PipelineEvent) -> (r: Option<PipelineError>)
    ensures
        r == error_of_spec(e),
{
    match e {
        PipelineEvent::AttachFailed => Some(PipelineError::Setup),
        PipelineEvent::CaptureFailed(c) => Some(PipelineError::Capture(c)),
        PipelineEvent::PresentFailed => Some(PipelineError::Render),
        _ => None,
    }
}

/// Whether the pipeline may issue canvas calls.
pub fn can_draw(s: PipelineState) -> (r: bool)
    ensures
        r == can_draw_spec(s),
{
    match s {
        PipelineState::Rendering => true,
        _ => false,
    }
}

/// Law (termination is absorbing): no event revives a terminated pipeline,
/// and a terminated pipeline never draws again.
pub proof fn lemma_terminated_absorbing(e: PipelineEvent)
    ensures
        step_spec(PipelineState::Terminated, e) == PipelineState::Terminated,
        !can_draw_spec(step_spec(PipelineState::Terminated, e)),
{
}

/// Law (capture failure is fatal): a failed capture read while rendering
/// terminates the pipeline at once, forbids further drawing, and reports the
/// capture error.
pub proof fn lemma_capture_failure_terminates(c: CaptureError)
    ensures
        step_spec(PipelineState::Rendering, PipelineEvent::CaptureFailed(c))
            == PipelineState::Terminated,
        !can_draw_spec(step_spec(PipelineState::Rendering, PipelineEvent::CaptureFailed(c))),
        error_of_spec(PipelineEvent::CaptureFailed(c)) == Some(PipelineError::Capture(c)),
{
}

/// Everything one tick paints: the waveform and, when enabled, one set of
/// spectrum bars per channel.
pub struct TickPlan {
    pub wave: Vec<Segment>,
    pub spectrum_left: Vec<Segment>,
    pub spectrum_right: Vec<Segment>,
}

/// Every segment of the plan keeps its rows within `[0, h]`.
pub open spec fn plan_in_bounds(plan: TickPlan, h: int) -> bool {
    &&& forall|i: int|
        0 <= i < plan.wave@.len() ==> (#[trigger] plan.wave@[i]).lo <= plan.wave@[i].hi
            && plan.wave@[i].hi <= h
    &&& forall|i: int|
        0 <= i < plan.spectrum_left@.len() ==> (#[trigger] plan.spectrum_left@[i]).lo
            <= plan.spectrum_left@[i].hi && plan.spectrum_left@[i].hi <= h
    &&& forall|i: int|
        0 <= i < plan.spectrum_right@.len() ==> (#[trigger] plan.spectrum_right@[i]).lo
            <= plan.spectrum_right@[i].hi && plan.spectrum_right@[i].hi <= h
}

/// Plan one tick: the waveform over the captured buffer and, when the
/// configuration shows a spectrum, the gated magnitude bars of both channels,
/// all downsampled with one stride taken from the fresh grid width.
pub fn build_tick_plan(
    frames: &Vec<SampleFrame>,
    left_mags: &Vec<u32>,
    right_mags: &Vec<u32>,
    w: u16,
    h: u16,
    cfg: &RenderConfig,
) -> (plan: TickPlan)
    requires
        config_wf(*cfg),
        frames@.len() >= 1,
        frames_in_range(frames@),
        left_mags@.len() == frames@.len(),
        right_mags@.len() == frames@.len(),
        forall|i: int| 0 <= i < left_mags@.len() ==> #[trigger] left_mags@[i] <= 1000,
        forall|i: int| 0 <= i < right_mags@.len() ==> #[trigger] right_mags@[i] <= 1000,
        w >= 1,
    ensures
        ({
            let s = stride_spec(frames@.len() as int, w as int);
            let n = column_count_spec(frames@.len() as int, s, w as int);
            &&& plan.wave@ == wave_plan_spec(frames@, s, n, h as int, *cfg)
            &&& cfg.show_spectrum ==> plan.spectrum_left@ == spectrum_plan_spec(
                left_mags@,
                s,
                n,
                h as int,
                *cfg,
                Channel::Left,
            ) && plan.spectrum_right@ == spectrum_plan_spec(
                right_mags@,
                s,
                n,
                h as int,
                *cfg,
                Channel::Right,
            )
            &&& !cfg.show_spectrum ==> plan.spectrum_left@ == Seq::<Segment>::empty()
                && plan.spectrum_right@ == Seq::<Segment>::empty()
        }),
        plan_in_bounds(plan, h as int),
{
    let wave = wave_plan(frames, w, h, cfg);
    if cfg.show_spectrum {
        let spectrum_left = spectrum_plan(left_mags, w, h, cfg, Channel::Left);
        let spectrum_right = spectrum_plan(right_mags, w, h, cfg, Channel::Right);
        TickPlan { wave, spectrum_left, spectrum_right }
    } else {
        let spectrum_left: Vec<Segment> = Vec::new();
        let spectrum_right: Vec<Segment> = Vec::new();
        TickPlan { wave, spectrum_left, spectrum_right }
    }
}

/// Law (analysis and planning are repeatable): the planned segments are a
/// pure function of the captured buffer, the magnitudes, the grid size and
/// the configuration — two plans built from the same inputs are identical.
pub proof fn lemma_plan_repeatable(
    first: Seq<Segment>,
    second: Seq<Segment>,
    frames: Seq<SampleFrame>,
    s: int,
    n: int,
    h: int,
    cfg: RenderConfig,
)
    requires
        first == wave_plan_spec(frames, s, n, h, cfg),
        second == wave_plan_spec(frames, s, n, h, cfg),
    ensures
        first == second,
{
}

/// Law (spectrum planning is repeatable): the same holds for a channel's
/// spectrum bars — two plans built from the same magnitudes are identical.
pub proof fn lemma_spectrum_repeatable(
    first: Seq<Segment>,
    second: Seq<Segment>,
    mags: Seq<u32>,
    s: int,
    n: int,
    h: int,
    cfg: RenderConfig,
    ch: Channel,
)
    requires
        first == spectrum_plan_spec(mags, s, n, h, cfg, ch),
        second == spectrum_plan_spec(mags, s, n, h, cfg, ch),
    ensures
        first == second,
{
}

} // verus!
