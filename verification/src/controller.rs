//! The session controller: maps each event the external event source
//! delivers to one session method and one action for the caller to perform,
//! and drives an explicit dispatch loop over a scripted event sequence. The
//! loop ends on a close request, the escape key, or a fatal render outcome.

use vstd::prelude::*;

use crate::frame::{AcquireOutcome, FrameAction, FramePlan};
use crate::geometry::Shape;
use crate::session::{State, SurfaceConfig, WindowSize};

verus! {

/// One event from the external event source, as the controller consumes it.
/// A redraw tick carries the outcome of acquiring the next surface image,
/// which the caller performs before dispatching.
#[derive(Clone, Copy, Debug, PartialEq, Eq, Structural)]
pub enum SessionEvent {
    CloseRequested,
    EscapePressed,
    Resized(WindowSize),
    ScaleFactorChanged(WindowSize),
    PrimaryMousePressed,
    OtherInput,
    RedrawRequested(AcquireOutcome),
    MainEventsCleared,
}

/// What the caller must do after one dispatched event.
#[derive(Clone, Copy, Debug, PartialEq, Eq, Structural)]
pub enum ControlAction {
    /// Nothing; keep polling.
    Idle,
    /// Stop the event loop and tear the session down.
    Exit,
    /// Re-apply this configuration to the surface.
    ConfigureSurface(SurfaceConfig),
    /// Replace the GPU vertex and index buffers with this shape's data.
    RebuildBuffers(Shape),
    /// Record, submit and present one frame with this draw.
    Draw(FramePlan),
    /// Ask the window for a redraw tick.
    RequestRedraw,
}

/// The events that end the loop: a close request, the escape key, and a
/// fatal out-of-memory acquisition.
pub open spec fn spec_exits(ev: SessionEvent) -> bool {
    ||| ev is CloseRequested
    ||| ev is EscapePressed
    ||| ev matches SessionEvent::RedrawRequested(AcquireOutcome::OutOfMemory)
}

/// The action a frame decision asks of the caller.
pub open spec fn spec_control_of_frame(f: FrameAction) -> ControlAction {
    match f {
        FrameAction::Draw(plan) => ControlAction::Draw(plan),
        FrameAction::Reconfigure(config) => ControlAction::ConfigureSurface(config),
        FrameAction::Skip => ControlAction::Idle,
        FrameAction::Terminate => ControlAction::Exit,
    }
}

fn control_of_frame(f: FrameAction) -> (a: ControlAction)
    ensures
        a == spec_control_of_frame(f),
{
    match f {
        FrameAction::Draw(plan) => ControlAction::Draw(plan),
        FrameAction::Reconfigure(config) => ControlAction::ConfigureSurface(config),
        FrameAction::Skip => ControlAction::Idle,
        FrameAction::Terminate => ControlAction::Exit,
    }
}

impl State {
    /// Hook for consuming an input event before the controller dispatches it;
    /// this renderer consumes none, so every event reaches the dispatch.
    pub fn input(&mut self, _ev: &SessionEvent) -> (handled: bool)
        ensures
            *final(self) == *old(self),
            handled == false,
    {
        false
    }

    /// Dispatches one event: close or escape exits; a resize (or scale-factor
    /// change) updates the stored configuration and asks for the surface to
    /// be reconfigured when the size is usable; a primary mouse press swaps
    /// the shape and asks for the buffers to be rebuilt; a redraw tick runs
    /// the update hook and triages the acquisition outcome; an idle pass asks
    /// for a redraw. Exit is returned exactly for the exiting events.
    pub fn handle_event(&mut self, ev: SessionEvent) -> (a: ControlAction)
        ensures
            old(self).wf() ==> final(self).wf(),
            (a is Exit) == spec_exits(ev),
            ev is CloseRequested || ev is EscapePressed ==> *final(self) == *old(self),
            ev matches SessionEvent::Resized(n) ==> *final(self) == old(self).spec_resize(n) && a
                == (if n.width > 0 && n.height > 0 {
                ControlAction::ConfigureSurface(old(self).spec_resize(n).config)
            } else {
                ControlAction::Idle
            }),
            ev matches SessionEvent::ScaleFactorChanged(n) ==> *final(self) == old(
                self,
            ).spec_resize(n) && a == (if n.width > 0 && n.height > 0 {
                ControlAction::ConfigureSurface(old(self).spec_resize(n).config)
            } else {
                ControlAction::Idle
            }),
            ev is PrimaryMousePressed ==> {
                &&& final(self).pentagon == !old(self).pentagon
                &&& final(self).active_shape() == old(self).active_shape().spec_toggle()
                &&& final(self).config == old(self).config
                &&& final(self).size == old(self).size
                &&& final(self).pipeline == old(self).pipeline
                &&& a == ControlAction::RebuildBuffers(old(self).active_shape().spec_toggle())
            },
            ev is OtherInput ==> *final(self) == *old(self) && a is Idle,
            ev matches SessionEvent::RedrawRequested(acq) ==> a == spec_control_of_frame(
                old(self).spec_frame_response(acq),
            ) && (acq is Lost ==> *final(self) == old(self).spec_resize(old(self).size)) && (!(acq
                is Lost) ==> *final(self) == *old(self)),
            ev is MainEventsCleared ==> *final(self) == *old(self) && a is RequestRedraw,
    {
        let handled = self.input(&ev);
        if handled {
            return ControlAction::Idle;
        }
        match ev {
            SessionEvent::CloseRequested => ControlAction::Exit,
            SessionEvent::EscapePressed => ControlAction::Exit,
            SessionEvent::Resized(n) => {
                if self.resize(n) {
                    ControlAction::ConfigureSurface(self.config)
                } else {
                    ControlAction::Idle
                }
            },
            SessionEvent::ScaleFactorChanged(n) => {
                if self.resize(n) {
                    ControlAction::ConfigureSurface(self.config)
                } else {
                    ControlAction::Idle
                }
            },
            SessionEvent::PrimaryMousePressed => {
                self.change_shape();
                ControlAction::RebuildBuffers(self.current_shape())
            },
            SessionEvent::OtherInput => ControlAction::Idle,
            SessionEvent::RedrawRequested(acq) => {
                self.update();
                let f = self.frame_response(acq);
                control_of_frame(f)
            },
            SessionEvent::MainEventsCleared => ControlAction::RequestRedraw,
        }
    }
}

/// The explicit poll/dispatch loop over a scripted event sequence: events are
/// dispatched in order, each action is recorded, and the loop stops right
/// after the first Exit. So an exiting event — in particular an
/// out-of-memory acquisition — is answered with Exit on its own tick, and no
/// event after it is dispatched: no further render occurs.
pub fn run_script(state: &mut State, events: &Vec<SessionEvent>) -> (log: Vec<ControlAction>)
    ensures
        old(state).wf() ==> final(state).wf(),
        log@.len() <= events@.len(),
        forall|j: int| 0 <= j < log@.len() - 1 ==> !(#[trigger] log@[j] is Exit),
        log@.len() < events@.len() ==> log@[log@.len() - 1] is Exit,
        forall|j: int| 0 <= j < log@.len() ==> ((#[trigger] log@[j] is Exit) == spec_exits(
            events@[j],
        )),
        forall|j: int|
            0 <= j < log@.len() && (events@[j] matches SessionEvent::RedrawRequested(
                AcquireOutcome::Acquired,
            )) ==> #[trigger] log@[j] is Draw,
        forall|j: int|
            0 <= j < log@.len() && events@[j] is PrimaryMousePressed ==> #[trigger] log@[j]
                is RebuildBuffers,
        forall|j: int|
            0 <= j < log@.len() && events@[j] is MainEventsCleared ==> #[trigger] log@[j]
                is RequestRedraw,
        forall|j: int|
            0 <= j < log@.len() && events@[j] is OtherInput ==> #[trigger] log@[j] is Idle,
{
    let mut log: Vec<ControlAction> = Vec::new();
    let mut exited: bool = false;
    let mut i: usize = 0;
    let n = events.len();
    while i < n && !exited
        invariant
            old(state).wf() ==> state.wf(),
            i <= n,
            n == events@.len(),
            log@.len() == i,
            exited == (i > 0 && log@[i - 1] is Exit),
            forall|j: int| 0 <= j < log@.len() - 1 ==> !(#[trigger] log@[j] is Exit),
            forall|j: int|
                0 <= j < log@.len() ==> ((#[trigger] log@[j] is Exit) == spec_exits(events@[j])),
            forall|j: int|
                0 <= j < log@.len() && (events@[j] matches SessionEvent::RedrawRequested(
                    AcquireOutcome::Acquired,
                )) ==> #[trigger] log@[j] is Draw,
            forall|j: int|
                0 <= j < log@.len() && events@[j] is PrimaryMousePressed ==> #[trigger] log@[j]
                    is RebuildBuffers,
            forall|j: int|
                0 <= j < log@.len() && events@[j] is MainEventsCleared ==> #[trigger] log@[j]
                    is RequestRedraw,
            forall|j: int|
                0 <= j < log@.len() && events@[j] is OtherInput ==> #[trigger] log@[j] is Idle,
        decreases n - i,
    {
        let ev = events[i];
        let a = state.handle_event(ev);
        exited = matches!(a, ControlAction::Exit);
        log.push(a);
        i = i + 1;
    }
    log
}

/// Law: a fatal out-of-memory acquisition terminates the loop on its own
/// tick. Given a dispatch log in which only the last action can be Exit and
/// every out-of-memory tick is answered with Exit — what `run_script`
/// guarantees — an out-of-memory event at position `j` means the log ends at
/// `j`: nothing, and in particular no draw, follows it.
pub proof fn lemma_fatal_stops_loop(events: Seq<SessionEvent>, log: Seq<ControlAction>, j: int)
    requires
        forall|k: int| 0 <= k < log.len() - 1 ==> !(#[trigger] log[k] is Exit),
        forall|k: int| 0 <= k < log.len() ==> ((#[trigger] log[k] is Exit) == spec_exits(events[k])),
        0 <= j < log.len(),
        events[j] matches SessionEvent::RedrawRequested(AcquireOutcome::OutOfMemory),
    ensures
        log.len() == j + 1,
        log[j] is Exit,
        forall|k: int| j < k < log.len() ==> !(#[trigger] log[k] is Draw),
{
}

} // verus!
