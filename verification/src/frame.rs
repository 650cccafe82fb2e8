//! The per-frame protocol: what one redraw draws, and what to do when the
//! surface refuses to hand out a frame target.
//!
//! The driver acquires the actual frame target, reports the outcome here,
//! and then executes the returned action; the recording scope it opens is
//! either fully recorded and submitted or discarded with the failed
//! acquisition, so no partial frame is ever visible.

use vstd::prelude::*;
use crate::color::ClearColor;
use crate::pipeline::PipelineKind;
use crate::state::State;

verus! {

/// The geometry dispatch of one frame, decided by the active pipeline's tag.
#[derive(Clone, Copy, PartialEq, Eq, Structural, Debug)]
pub enum DrawCall {
    /// Draw `vertex_count` implicit vertices, no buffers bound.
    NonIndexed { vertex_count: u32, instance_count: u32 },
    /// Bind the vertex and index buffers and draw `index_count` indices.
    Indexed { index_count: u32, instance_count: u32 },
}

/// Everything one frame's recording scope needs: the clear color, the
/// pipeline to bind, and the draw call to issue.
#[derive(Clone, Copy, PartialEq, Eq, Structural, Debug)]
pub struct FramePlan {
    pub clear: ClearColor,
    pub pipeline_index: usize,
    pub draw: DrawCall,
}

/// The outcome of asking the surface for a frame target.
#[derive(Clone, Copy, PartialEq, Eq, Structural, Debug)]
pub enum FrameAcquire {
    /// A target was handed out and one render-present cycle may proceed.
    Ready,
    /// The surface was lost; it must be reconfigured before the next attempt.
    Lost,
    /// The surface no longer matches the window; self-resolves next frame.
    Outdated,
    /// The target did not arrive in time; self-resolves next frame.
    Timeout,
    /// An unrecoverable backend error.
    Unavailable,
}

/// What the driver must do with a frame outcome.
#[derive(Clone, Copy, PartialEq, Eq, Structural, Debug)]
pub enum FrameAction {
    /// Record, submit and present this plan.
    Render(FramePlan),
    /// Skip the frame and reconfigure the surface with the stored size.
    Reconfigure { width: u32, height: u32 },
    /// Skip the frame and only log; the next frame retries naturally.
    RetryNextFrame,
    /// Report the error upward and skip the frame.
    Report,
}

/// The plan a given state renders: its current clear color, its active
/// pipeline, and the draw call that pipeline's kind demands.
pub open spec fn spec_frame_plan(s: State) -> FramePlan {
    FramePlan {
        clear: s.colors.color,
        pipeline_index: s.pipelines.active,
        draw: if s.pipelines.kinds@[s.pipelines.active as int] == PipelineKind::IndexedMesh {
            DrawCall::Indexed { index_count: s.geometry.indices@.len() as u32, instance_count: 1 }
        } else {
            DrawCall::NonIndexed { vertex_count: 3, instance_count: 1 }
        },
    }
}

impl State {
    /// What this frame draws: an indexed-mesh pipeline consumes every index
    /// of the geometry store in a single instance; a non-indexed pipeline
    /// draws exactly three implicit vertices in a single instance.
    pub fn frame_plan(&self) -> (p: FramePlan)
        requires
            self.wf(),
        ensures
            p == spec_frame_plan(*self),
            p.clear == self.colors.color,
            p.pipeline_index == self.pipelines.active,
            self.pipelines.kinds@[self.pipelines.active as int] == PipelineKind::IndexedMesh
                ==> p.draw == (DrawCall::Indexed {
                index_count: self.geometry.indices@.len() as u32,
                instance_count: 1,
            }),
            self.pipelines.kinds@[self.pipelines.active as int] == PipelineKind::NonIndexed
                ==> p.draw == (DrawCall::NonIndexed { vertex_count: 3, instance_count: 1 }),
    {
        let draw = match self.pipelines.active_kind() {
            PipelineKind::NonIndexed => DrawCall::NonIndexed {
                vertex_count: 3,
                instance_count: 1,
            },
            PipelineKind::IndexedMesh => DrawCall::Indexed {
                index_count: self.geometry.index_count(),
                instance_count: 1,
            },
        };
        FramePlan { clear: self.colors.color, pipeline_index: self.pipelines.active_index(), draw }
    }

    /// One frame step, terminal on present or on early error return: render
    /// the plan when a target is ready; on a lost surface, reconfigure with
    /// the stored size and skip; on an outdated or timed-out surface, only
    /// log and let the next frame retry; report anything else upward.
    pub fn render_step(&self, acquired: FrameAcquire) -> (action: FrameAction)
        requires
            self.wf(),
        ensures
            acquired == FrameAcquire::Ready ==> action == FrameAction::Render(
                spec_frame_plan(*self),
            ),
            acquired == FrameAcquire::Lost ==> action == (FrameAction::Reconfigure {
                width: self.config.width,
                height: self.config.height,
            }),
            acquired == FrameAcquire::Outdated || acquired == FrameAcquire::Timeout ==> action
                == FrameAction::RetryNextFrame,
            acquired == FrameAcquire::Unavailable ==> action == FrameAction::Report,
    {
        match acquired {
            FrameAcquire::Ready => FrameAction::Render(self.frame_plan()),
            FrameAcquire::Lost => FrameAction::Reconfigure {
                width: self.config.width,
                height: self.config.height,
            },
            FrameAcquire::Outdated => FrameAction::RetryNextFrame,
            FrameAcquire::Timeout => FrameAction::RetryNextFrame,
            FrameAcquire::Unavailable => FrameAction::Report,
        }
    }
}

} // verus!
