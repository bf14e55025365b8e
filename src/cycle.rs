use vstd::prelude::*;

use crate::atlas::{atlas_resize_target, resize_target, ResizeDecision};
use crate::pipeline::PipelineState;
use crate::region::Region;

verus! {

/// The most resizes one processing cycle makes: the layout engine doubles its
/// suggestion on each overflow, and a `u32` side doubles at most this often.
pub const MAX_RESIZES: u32 = 32;

/// What the layout engine answered to one attempt at processing the queue.
#[derive(Clone, Copy, Debug, PartialEq, Eq, Structural)]
pub enum ProcessOutcome {
    /// A new set of `instance_count` glyph instances to draw.
    Draw { instance_count: usize },
    /// Nothing changed since the last draw: draw the previous instances again.
    ReDraw,
    /// The atlas could not hold the queued glyphs; the engine suggests a larger size.
    TextureTooSmall { suggested_width: u32, suggested_height: u32 },
}

/// Why a processing cycle gave up.
#[derive(Clone, Copy, Debug, PartialEq, Eq, Structural)]
pub enum ProcessError {
    /// The atlas overflowed while already at the largest dimensions allowed.
    AtlasAtCapacity { width: u32, height: u32 },
    /// The atlas overflowed again after the most resizes one cycle makes.
    TooManyResizes,
}

/// What the caller does next in a processing cycle.
#[derive(Clone, Copy, Debug, PartialEq, Eq, Structural)]
pub enum CycleStep {
    /// Upload the new instances; the cycle is over.
    Upload,
    /// Keep the instance buffer as it is; the cycle is over.
    Keep,
    /// Replace the atlas with a blank one of these dimensions, tell the engine, and retry.
    Resize { width: u32, height: u32 },
    /// Stop: the queue cannot be processed.
    Fail(ProcessError),
}

/// One call of processing the queue: the cap on the atlas and the resizes made so far.
#[derive(Clone, Copy, Debug, PartialEq, Eq, Structural)]
pub struct ProcessCycle {
    pub max_dimension: u32,
    pub resizes: u32,
}

/// The step that follows `outcome`, with the cycle and the renderer it leaves.
pub open spec fn process_step(cycle: ProcessCycle, pipeline: PipelineState, outcome: ProcessOutcome) -> (
    ProcessCycle,
    PipelineState,
    CycleStep,
) {
    match outcome {
        ProcessOutcome::Draw { instance_count } => (
            cycle,
            pipeline.spec_uploaded(instance_count),
            CycleStep::Upload,
        ),
        ProcessOutcome::ReDraw => (cycle, pipeline, CycleStep::Keep),
        ProcessOutcome::TextureTooSmall { suggested_width, suggested_height } => {
            if cycle.resizes >= MAX_RESIZES {
                (cycle, pipeline, CycleStep::Fail(ProcessError::TooManyResizes))
            } else {
                match resize_target(
                    (pipeline.atlas_width, pipeline.atlas_height),
                    (suggested_width, suggested_height),
                    cycle.max_dimension,
                ) {
                    ResizeDecision::Resize { width, height } => (
                        ProcessCycle { resizes: (cycle.resizes + 1) as u32, ..cycle },
                        pipeline.spec_resized(width, height),
                        CycleStep::Resize { width, height },
                    ),
                    ResizeDecision::AtCapacity => (
                        cycle,
                        pipeline,
                        CycleStep::Fail(
                            ProcessError::AtlasAtCapacity {
                                width: pipeline.atlas_width,
                                height: pipeline.atlas_height,
                            },
                        ),
                    ),
                }
            }
        },
    }
}

impl ProcessCycle {
    /// A cycle that has not resized yet, with atlas sides capped at `max_dimension`.
    pub fn new(max_dimension: u32) -> (r: ProcessCycle)
        ensures
            r == (ProcessCycle { max_dimension, resizes: 0 }),
    {
        ProcessCycle { max_dimension, resizes: 0 }
    }

    /// Decides what follows the engine's `outcome`, and records in `pipeline` the
    /// upload or the resize that the caller is to carry out.
    pub fn step(&mut self, pipeline: &mut PipelineState, outcome: ProcessOutcome) -> (r: CycleStep)
        ensures
            (*final(self), *final(pipeline), r) == process_step(*old(self), *old(pipeline), outcome),
    {
        match outcome {
            ProcessOutcome::Draw { instance_count } => {
                pipeline.upload(instance_count);
                CycleStep::Upload
            },
            ProcessOutcome::ReDraw => CycleStep::Keep,
            ProcessOutcome::TextureTooSmall { suggested_width, suggested_height } => {
                if self.resizes >= MAX_RESIZES {
                    CycleStep::Fail(ProcessError::TooManyResizes)
                } else {
                    let current = (pipeline.atlas_width, pipeline.atlas_height);
                    match atlas_resize_target(
                        current,
                        (suggested_width, suggested_height),
                        self.max_dimension,
                    ) {
                        ResizeDecision::Resize { width, height } => {
                            pipeline.resize_cache(width, height);
                            self.resizes = self.resizes + 1;
                            CycleStep::Resize { width, height }
                        },
                        ResizeDecision::AtCapacity => CycleStep::Fail(
                            ProcessError::AtlasAtCapacity { width: current.0, height: current.1 },
                        ),
                    }
                }
            },
        }
    }
}

/// A cycle that ends in a redraw leaves the instance buffer and the atlas as
/// they were, so a draw after it submits what a draw before it did.
pub proof fn lemma_redraw_submits_same_call(
    cycle: ProcessCycle,
    pipeline: PipelineState,
    region: Option<Region>,
)
    ensures
        process_step(cycle, pipeline, ProcessOutcome::ReDraw).1.spec_draw_call(region)
            == pipeline.spec_draw_call(region),
        process_step(cycle, pipeline, ProcessOutcome::ReDraw).2 == CycleStep::Keep,
{
}

/// Within one cycle every resize stays within the cap and never shrinks the
/// atlas, when the engine suggests at least the current size and the atlas
/// started within the cap.
pub proof fn lemma_step_resize_within_cap(
    cycle: ProcessCycle,
    pipeline: PipelineState,
    suggested_width: u32,
    suggested_height: u32,
)
    requires
        pipeline.atlas_width <= cycle.max_dimension,
        pipeline.atlas_height <= cycle.max_dimension,
        pipeline.atlas_width <= suggested_width,
        pipeline.atlas_height <= suggested_height,
    ensures
        ({
            let after = process_step(
                cycle,
                pipeline,
                ProcessOutcome::TextureTooSmall { suggested_width, suggested_height },
            );
            &&& pipeline.atlas_width <= after.1.atlas_width <= cycle.max_dimension
            &&& pipeline.atlas_height <= after.1.atlas_height <= cycle.max_dimension
            &&& after.1.instances == pipeline.instances
        }),
{
}

/// A cycle ends: every step but a resize is final, and a resize counts toward
/// the bound, so no cycle resizes more than `MAX_RESIZES` times.
pub proof fn lemma_cycle_resizes_bounded(
    cycle: ProcessCycle,
    pipeline: PipelineState,
    outcome: ProcessOutcome,
)
    requires
        cycle.resizes <= MAX_RESIZES,
    ensures
        ({
            let after = process_step(cycle, pipeline, outcome);
            &&& after.0.resizes <= MAX_RESIZES
            &&& after.0.max_dimension == cycle.max_dimension
            &&& (after.2 is Resize ==> after.0.resizes == cycle.resizes + 1)
            &&& (!(after.2 is Resize) ==> after.0.resizes == cycle.resizes)
        }),
{
}

} // verus!
