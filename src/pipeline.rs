use vstd::prelude::*;

use crate::region::Region;

verus! {

/// The per-instance vertex attributes of a glyph quad, in the order the vertex
/// shader declares them.
#[derive(Clone, Copy, Debug, PartialEq, Eq, Structural)]
pub enum Semantics {
    LeftTop,
    RightBottom,
    TexLeftTop,
    TexRightBottom,
    Color,
}

/// Vertices of the unit quad that each instance is drawn with, as a triangle strip.
pub const QUAD_VERTICES: u32 = 4;

/// One instanced draw: a quad per instance, sampling the atlas, limited to the
/// scissor region when there is one.
#[derive(Clone, Copy, Debug, PartialEq, Eq, Structural)]
pub struct DrawCall {
    pub instance_count: usize,
    pub vertices_per_instance: u32,
    pub atlas_width: u32,
    pub atlas_height: u32,
    pub scissor: Option<Region>,
}

/// What the renderer holds between frames: the dimensions of the atlas texture,
/// and the number of instances in the instance buffer once one was uploaded.
#[derive(Clone, Copy, Debug, PartialEq, Eq, Structural)]
pub struct PipelineState {
    pub atlas_width: u32,
    pub atlas_height: u32,
    pub instances: Option<usize>,
}

impl PipelineState {
    /// A renderer with a fresh atlas and no instance buffer.
    pub open spec fn spec_new(atlas: (u32, u32)) -> PipelineState {
        PipelineState { atlas_width: atlas.0, atlas_height: atlas.1, instances: None }
    }

    /// The instance buffer replaced wholesale by one of `count` instances.
    pub open spec fn spec_uploaded(self, count: usize) -> PipelineState {
        PipelineState { instances: Some(count), ..self }
    }

    /// The atlas replaced by a blank one of the given dimensions.
    pub open spec fn spec_resized(self, width: u32, height: u32) -> PipelineState {
        PipelineState { atlas_width: width, atlas_height: height, ..self }
    }

    /// No draw without an instance buffer; otherwise one draw of all its instances.
    pub open spec fn spec_draw_call(self, region: Option<Region>) -> Option<DrawCall> {
        match self.instances {
            None => None,
            Some(count) => Some(
                DrawCall {
                    instance_count: count,
                    vertices_per_instance: QUAD_VERTICES,
                    atlas_width: self.atlas_width,
                    atlas_height: self.atlas_height,
                    scissor: region,
                },
            ),
        }
    }

    pub fn new(atlas: (u32, u32)) -> (r: PipelineState)
        ensures
            r == PipelineState::spec_new(atlas),
    {
        PipelineState { atlas_width: atlas.0, atlas_height: atlas.1, instances: None }
    }

    /// Records that the instance buffer now holds `count` instances.
    pub fn upload(&mut self, count: usize)
        ensures
            *final(self) == old(self).spec_uploaded(count),
    {
        self.instances = Some(count);
    }

    /// Records that the atlas was replaced by a blank `width` by `height` one.
    pub fn resize_cache(&mut self, width: u32, height: u32)
        ensures
            *final(self) == old(self).spec_resized(width, height),
    {
        self.atlas_width = width;
        self.atlas_height = height;
    }

    /// The draw to submit for the current instance buffer, if there is one.
    pub fn draw_call(&self, region: Option<Region>) -> (r: Option<DrawCall>)
        ensures
            r == self.spec_draw_call(region),
    {
        match self.instances {
            None => None,
            Some(count) => Some(
                DrawCall {
                    instance_count: count,
                    vertices_per_instance: QUAD_VERTICES,
                    atlas_width: self.atlas_width,
                    atlas_height: self.atlas_height,
                    scissor: region,
                },
            ),
        }
    }
}

/// Before any instances are uploaded there is nothing to draw, whatever the region.
pub proof fn lemma_fresh_pipeline_draws_nothing(atlas: (u32, u32), region: Option<Region>)
    ensures
        PipelineState::spec_new(atlas).spec_draw_call(region).is_none(),
{
}

} // verus!
