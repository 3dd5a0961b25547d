//! The frame renderer's decisions. Acquiring the next presentable image is
//! the caller's I/O; this module triages the acquisition outcome — draw,
//! skip, reconfigure-and-skip, or terminate — and fixes every parameter of
//! the one indexed draw a successful frame records.

use vstd::prelude::*;

use crate::pipeline::IndexFormat;
use crate::session::{State, SurfaceConfig, WindowSize};

verus! {

/// What acquiring the next surface image reported.
#[derive(Clone, Copy, Debug, PartialEq, Eq, Structural)]
pub enum AcquireOutcome {
    /// An image was acquired; the frame is drawn.
    Acquired,
    /// The surface is stale; reconfigure with the last known size and skip.
    Lost,
    /// The surface no longer matches the window; skip and retry next tick.
    Outdated,
    /// Acquisition timed out; skip and retry next tick.
    Timeout,
    /// The host is out of memory; fatal, the session must end.
    OutOfMemory,
}

/// The one render pass of a frame: clear the target to the fixed background
/// color, bind the pipeline, the vertex buffer at slot 0 and the index buffer
/// as 16-bit indices, and issue a single instanced draw over the whole index
/// list.
#[derive(Clone, Copy, Debug, PartialEq, Eq, Structural)]
pub struct FramePlan {
    pub first_index: u32,
    pub index_count: u32,
    pub base_vertex: i32,
    pub first_instance: u32,
    pub instance_count: u32,
    pub index_format: IndexFormat,
    pub clear_target: bool,
}

/// What the renderer does with a frame.
#[derive(Clone, Copy, Debug, PartialEq, Eq, Structural)]
pub enum FrameAction {
    /// Record and submit the pass, then present.
    Draw(FramePlan),
    /// Skip this frame and re-apply this configuration to the surface.
    Reconfigure(SurfaceConfig),
    /// Skip this frame; the next tick retries.
    Skip,
    /// Fatal: stop the session.
    Terminate,
}

impl State {
    /// The draw this session's next successful frame issues: every index of
    /// the active shape, from 0, one instance, 16-bit indices, clearing the
    /// target first.
    pub open spec fn spec_frame_plan(self) -> FramePlan {
        FramePlan {
            first_index: 0,
            index_count: self.num_indices,
            base_vertex: 0,
            first_instance: 0,
            instance_count: 1,
            index_format: IndexFormat::Uint16,
            clear_target: true,
        }
    }

    /// The triage of an acquisition outcome. A stale surface is reconfigured
    /// with the last known size — unless that size is degenerate, in which
    /// case reconfiguring would be refused and the frame is only skipped.
    pub open spec fn spec_frame_response(self, acquired: AcquireOutcome) -> FrameAction {
        match acquired {
            AcquireOutcome::Acquired => FrameAction::Draw(self.spec_frame_plan()),
            AcquireOutcome::Lost => if self.size.width > 0 && self.size.height > 0 {
                FrameAction::Reconfigure(self.spec_resize(self.size).config)
            } else {
                FrameAction::Skip
            },
            AcquireOutcome::Outdated => FrameAction::Skip,
            AcquireOutcome::Timeout => FrameAction::Skip,
            AcquireOutcome::OutOfMemory => FrameAction::Terminate,
        }
    }

    /// One render tick, after the caller acquired (or failed to acquire) the
    /// next surface image: returns what to do with this frame. A `Lost`
    /// outcome re-applies the last known size to the stored configuration,
    /// exactly as a resize to that size would.
    pub fn frame_response(&mut self, acquired: AcquireOutcome) -> (a: FrameAction)
        ensures
            a == old(self).spec_frame_response(acquired),
            acquired is Lost ==> *final(self) == old(self).spec_resize(old(self).size),
            !(acquired is Lost) ==> *final(self) == *old(self),
            old(self).wf() ==> final(self).wf(),
    {
        match acquired {
            AcquireOutcome::Acquired => FrameAction::Draw(
                FramePlan {
                    first_index: 0,
                    index_count: self.num_indices,
                    base_vertex: 0,
                    first_instance: 0,
                    instance_count: 1,
                    index_format: IndexFormat::Uint16,
                    clear_target: true,
                },
            ),
            AcquireOutcome::Lost => {
                let last_known = self.size;
                let reconfigure = self.resize(last_known);
                if reconfigure {
                    FrameAction::Reconfigure(self.config)
                } else {
                    FrameAction::Skip
                }
            },
            AcquireOutcome::Outdated => FrameAction::Skip,
            AcquireOutcome::Timeout => FrameAction::Skip,
            AcquireOutcome::OutOfMemory => FrameAction::Terminate,
        }
    }
}

/// Law: after resizing a well-formed session to any usable window size, a
/// render that acquires its image draws, and the stored configuration's
/// width and height agree with the window size the resize reported — the
/// surface and the window cannot desynchronize.
pub proof fn lemma_resize_then_render(s: State, n: WindowSize)
    requires
        s.wf(),
        n.width > 0,
        n.height > 0,
    ensures
        s.spec_resize(n).wf(),
        s.spec_resize(n).config.width == n.width,
        s.spec_resize(n).config.height == n.height,
        s.spec_resize(n).size == n,
        s.spec_resize(n).spec_frame_response(AcquireOutcome::Acquired) is Draw,
{
}

/// Law: a stale (`Lost`) acquisition never draws that frame; in a well-formed
/// session with a usable last known size, the frame is skipped and the
/// surface reconfigured with exactly the stored configuration at that size,
/// the session otherwise unchanged — so the next tick's render proceeds
/// normally and draws on acquisition.
pub proof fn lemma_lost_skips_and_reconfigures(s: State)
    requires
        s.wf(),
        s.size.width > 0,
        s.size.height > 0,
    ensures
        !(s.spec_frame_response(AcquireOutcome::Lost) is Draw),
        s.spec_frame_response(AcquireOutcome::Lost) == FrameAction::Reconfigure(s.config),
        s.config.width == s.size.width,
        s.config.height == s.size.height,
        s.spec_resize(s.size) == s,
        s.spec_frame_response(AcquireOutcome::Acquired) == FrameAction::Draw(s.spec_frame_plan()),
{
}

} // verus!
