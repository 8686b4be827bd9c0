//! The frame loop's state machine: which stage a frame is in, what the
//! host should do next, and how each acquisition error is handled.

use vstd::prelude::*;
use crate::context::AcquireError;

verus! {

/// The stage the frame loop is in.
#[derive(Clone, Copy, PartialEq, Eq, Structural, Debug)]
pub enum LoopState {
    /// Waiting for the host to ask for a redraw.
    Idle,
    /// A redraw was requested; a frame is to be acquired.
    FrameRequested,
    /// A frame was acquired; the pass is to be encoded.
    FrameAcquired,
    /// The pass was encoded; the commands are to be submitted.
    Encoding,
    /// The commands were submitted; the frame is to be presented.
    Submitted,
    /// The frame was presented; the cycle is complete.
    Presented,
    /// A fatal error occurred; the process must exit.
    Shutdown,
}

/// What the host reports to the loop.
#[derive(Clone, Copy, PartialEq, Eq, Structural, Debug)]
pub enum LoopEvent {
    /// All events are processed; the window is ready to be redrawn.
    RedrawReady,
    /// Frame acquisition succeeded.
    AcquireOk,
    /// Frame acquisition failed.
    AcquireFailed(AcquireError),
    /// The render pass was encoded.
    EncodeDone,
    /// The encoded commands were submitted to the queue.
    SubmitDone,
    /// The frame was handed to the compositor.
    PresentDone,
    /// The presented frame's cycle is over.
    FrameComplete,
}

/// What the host is to do after a step.
#[derive(Clone, Copy, PartialEq, Eq, Structural, Debug)]
pub enum LoopAction {
    /// Nothing; wait for the next event.
    Wait,
    /// Acquire the next frame from the surface.
    Acquire,
    /// Encode the render pass for the acquired frame.
    Encode,
    /// Submit the encoded commands to the queue.
    Submit,
    /// Present the submitted frame.
    Present,
    /// Reconfigure the surface at the last known size, then go on.
    Reconfigure,
    /// Drop this frame after noting the failure, then go on.
    SkipFrame,
    /// Exit the process.
    Exit,
}

/// The loop's transition function: the successful path cycles through
/// the stages; a lost surface reconfigures and returns to idle; an
/// out-of-memory failure shuts the loop down; any other acquisition
/// failure drops the frame.
pub open spec fn spec_step(s: LoopState, e: LoopEvent) -> (LoopState, LoopAction) {
    match (s, e) {
        (LoopState::Idle, LoopEvent::RedrawReady) => (LoopState::FrameRequested, LoopAction::Acquire),
        (LoopState::FrameRequested, LoopEvent::AcquireOk) => (
            LoopState::FrameAcquired,
            LoopAction::Encode,
        ),
        (LoopState::FrameRequested, LoopEvent::AcquireFailed(AcquireError::SurfaceLost)) => (
            LoopState::Idle,
            LoopAction::Reconfigure,
        ),
        (LoopState::FrameRequested, LoopEvent::AcquireFailed(AcquireError::OutOfMemory)) => (
            LoopState::Shutdown,
            LoopAction::Exit,
        ),
        (LoopState::FrameRequested, LoopEvent::AcquireFailed(AcquireError::Other)) => (
            LoopState::Idle,
            LoopAction::SkipFrame,
        ),
        (LoopState::FrameAcquired, LoopEvent::EncodeDone) => (LoopState::Encoding, LoopAction::Submit),
        (LoopState::Encoding, LoopEvent::SubmitDone) => (LoopState::Submitted, LoopAction::Present),
        (LoopState::Submitted, LoopEvent::PresentDone) => (LoopState::Presented, LoopAction::Wait),
        (LoopState::Presented, LoopEvent::FrameComplete) => (LoopState::Idle, LoopAction::Wait),
        (LoopState::Shutdown, _) => (LoopState::Shutdown, LoopAction::Exit),
        (_, _) => (s, LoopAction::Wait),
    }
}

/// Advances the loop by one host event.
pub fn step(s: LoopState, e: LoopEvent) -> (r: (LoopState, LoopAction))
    ensures
        r == spec_step(s, e),
{
    match (s, e) {
        (LoopState::Idle, LoopEvent::RedrawReady) => (LoopState::FrameRequested, LoopAction::Acquire),
        (LoopState::FrameRequested, LoopEvent::AcquireOk) => (
            LoopState::FrameAcquired,
            LoopAction::Encode,
        ),
        (LoopState::FrameRequested, LoopEvent::AcquireFailed(AcquireError::SurfaceLost)) => (
            LoopState::Idle,
            LoopAction::Reconfigure,
        ),
        (LoopState::FrameRequested, LoopEvent::AcquireFailed(AcquireError::OutOfMemory)) => (
            LoopState::Shutdown,
            LoopAction::Exit,
        ),
        (LoopState::FrameRequested, LoopEvent::AcquireFailed(AcquireError::Other)) => (
            LoopState::Idle,
            LoopAction::SkipFrame,
        ),
        (LoopState::FrameAcquired, LoopEvent::EncodeDone) => (LoopState::Encoding, LoopAction::Submit),
        (LoopState::Encoding, LoopEvent::SubmitDone) => (LoopState::Submitted, LoopAction::Present),
        (LoopState::Submitted, LoopEvent::PresentDone) => (LoopState::Presented, LoopAction::Wait),
        (LoopState::Presented, LoopEvent::FrameComplete) => (LoopState::Idle, LoopAction::Wait),
        (LoopState::Shutdown, _) => (LoopState::Shutdown, LoopAction::Exit),
        (_, _) => (s, LoopAction::Wait),
    }
}

/// Shutdown is terminal: no event leaves it.
pub proof fn lemma_shutdown_terminal(e: LoopEvent)
    ensures
        spec_step(LoopState::Shutdown, e).0 == LoopState::Shutdown,
{
}

/// The loop shuts down exactly on an out-of-memory acquisition failure:
/// from any state but Shutdown, the one event that reaches Shutdown is
/// `AcquireFailed(OutOfMemory)` while a frame is requested.
pub proof fn lemma_only_oom_shuts_down(s: LoopState, e: LoopEvent)
    requires
        s != LoopState::Shutdown,
    ensures
        spec_step(s, e).0 == LoopState::Shutdown <==> s == LoopState::FrameRequested && e
            == LoopEvent::AcquireFailed(AcquireError::OutOfMemory),
{
}

/// A lost surface never stops the loop: it reconfigures and returns to
/// idle, ready for the next redraw.
pub proof fn lemma_lost_surface_recovers()
    ensures
        spec_step(LoopState::FrameRequested, LoopEvent::AcquireFailed(AcquireError::SurfaceLost))
            == (LoopState::Idle, LoopAction::Reconfigure),
{
}

/// One successful frame: from idle, the five completion events in order
/// walk the whole cycle and return the loop to idle.
pub proof fn lemma_success_cycle()
    ensures
        ({
            let s1 = spec_step(LoopState::Idle, LoopEvent::RedrawReady).0;
            let s2 = spec_step(s1, LoopEvent::AcquireOk).0;
            let s3 = spec_step(s2, LoopEvent::EncodeDone).0;
            let s4 = spec_step(s3, LoopEvent::SubmitDone).0;
            let s5 = spec_step(s4, LoopEvent::PresentDone).0;
            let s6 = spec_step(s5, LoopEvent::FrameComplete).0;
            s1 == LoopState::FrameRequested && s2 == LoopState::FrameAcquired && s3
                == LoopState::Encoding && s4 == LoopState::Submitted && s5 == LoopState::Presented
                && s6 == LoopState::Idle
        }),
{
}

} // verus!
