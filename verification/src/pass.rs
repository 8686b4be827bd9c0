//! The frame renderer: the fixed pipeline state and buffer sizes, and
//! the commands it records into the one render pass of a frame.

use vstd::prelude::*;
use crate::Color;
use crate::context::AcquireError;
use crate::context::RenderContext;
use crate::frame::Frame;
use crate::geometry::Vertex;
use crate::layout::VertexBufferLayout;
use crate::raster::ScreenTriangle;
use crate::raster::run_pass;
use crate::raster::spec_shade;

verus! {

/// One draw command recorded into a render pass.
#[derive(Clone, Copy, PartialEq, Eq, Structural, Debug)]
pub enum DrawCall {
    /// A non-indexed draw over `vertex_count` vertices.
    Draw { vertex_count: u32 },
    /// An indexed draw over `index_count` indices.
    DrawIndexed { index_count: u32 },
}

/// Everything one render pass does, in order: the clear it begins with
/// and the draw calls it records.
#[derive(Clone, Debug)]
pub struct PassRecord {
    pub clear_color: Color,
    pub calls: Vec<DrawCall>,
}

/// Holds what the per-frame draw reads: the logical sizes of the
/// GPU-resident vertex and index buffers and the vertex layout the
/// pipeline was built with.
#[derive(Clone, Debug)]
pub struct FrameRenderer {
    pub vertex_count: u32,
    pub index_count: u32,
    pub layout: VertexBufferLayout,
}

impl FrameRenderer {
    /// Builds the renderer for a vertex list and an index list whose
    /// every entry refers to a vertex of the list.
    pub fn build(vertices: &Vec<Vertex>, indices: &Vec<u16>, layout: VertexBufferLayout) -> (r:
        FrameRenderer)
        requires
            vertices@.len() <= u32::MAX,
            indices@.len() <= u32::MAX,
            forall|i: int| 0 <= i < indices@.len() ==> (indices@[i] as int) < vertices@.len(),
            layout.wf(),
        ensures
            r.vertex_count == vertices@.len(),
            r.index_count == indices@.len(),
            r.layout == layout,
    {
        let vertex_count = vertices.len() as u32;
        let index_count = indices.len() as u32;
        FrameRenderer { vertex_count, index_count, layout }
    }

    /// Records the one render pass of a frame: the clear it begins with,
    /// one non-indexed draw over the full vertex count and, when indices
    /// exist, one indexed draw over the full index count. Every
    /// non-indexed draw covers exactly the vertex count and every
    /// indexed draw exactly the index count.
    pub fn encode_pass(&self, clear_color: Color) -> (p: PassRecord)
        ensures
            p.clear_color == clear_color,
            self.index_count > 0 ==> p.calls@ == seq![
                DrawCall::Draw { vertex_count: self.vertex_count },
                DrawCall::DrawIndexed { index_count: self.index_count },
            ],
            self.index_count == 0 ==> p.calls@ == seq![
                DrawCall::Draw { vertex_count: self.vertex_count },
            ],
            forall|i: int|
                0 <= i < p.calls@.len() ==> match #[trigger] p.calls@[i] {
                    DrawCall::Draw { vertex_count } => vertex_count == self.vertex_count,
                    DrawCall::DrawIndexed { index_count } => index_count == self.index_count,
                },
    {
        let mut calls: Vec<DrawCall> = Vec::new();
        calls.push(DrawCall::Draw { vertex_count: self.vertex_count });
        if self.index_count > 0 {
            calls.push(DrawCall::DrawIndexed { index_count: self.index_count });
            proof {
                assert(calls@ =~= seq![
                    DrawCall::Draw { vertex_count: self.vertex_count },
                    DrawCall::DrawIndexed { index_count: self.index_count },
                ]);
            }
        } else {
            proof {
                assert(calls@ =~= seq![DrawCall::Draw { vertex_count: self.vertex_count }]);
            }
        }
        PassRecord { clear_color, calls }
    }

    /// Renders one frame: acquires it from the context, clears it to the
    /// clear color, draws the given screen triangles in order, and hands
    /// the result to the compositor. Fails exactly when the host
    /// reported a fault on acquisition, and then leaves no other trace.
    pub fn render(
        &self,
        ctx: &RenderContext,
        clear_color: Color,
        triangles: &Vec<ScreenTriangle>,
        fault: Option<AcquireError>,
    ) -> (r: Result<Frame, AcquireError>)
        requires
            ctx.wf(),
            ctx.config.width * ctx.config.height <= usize::MAX,
            forall|k: int| 0 <= k < triangles@.len() ==> (#[trigger] triangles@[k]).wf(),
        ensures
            fault is None <==> r is Ok,
            r matches Ok(shown) ==> shown.wf() && shown.spec_width() == ctx.config.width
                && shown.spec_height() == ctx.config.height && forall|x: int, y: int|
                0 <= x < ctx.config.width && 0 <= y < ctx.config.height ==> shown.spec_pixel(x, y)
                    == spec_shade(triangles@, x, y, clear_color),
            fault matches Some(e) ==> r == Err::<Frame, AcquireError>(e),
    {
        match ctx.acquire_frame(fault) {
            Ok(mut frame) => {
                run_pass(&mut frame, clear_color, triangles);
                Ok(ctx.present(frame))
            },
            Err(e) => Err(e),
        }
    }
}

} // verus!
