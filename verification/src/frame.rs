//! The draw list of a frame: what the UI engine painted, and the draw calls
//! that put it on the target.

use crate::bytes::native_words;
use crate::geometry::{
    all_in_convention, encode_vertices, encoded_vertices, index_bytes, is_vertex_stream,
    vertex_stride, EngineVertex, TexCoordConvention,
};
use crate::pipeline::{ColorFormat, PipelineHandle};
use crate::scalar::Scalar;
use vstd::prelude::*;

verus! {

/// The clip rectangle of a batch in physical pixels, by its two corners:
/// the one nearest the origin and the one farthest from it. The caller has
/// them from the rectangle in logical pixels by `min * density` and
/// `max * density`.
#[derive(Clone, Copy, Debug, PartialEq, Eq)]
pub struct ScaledClip {
    pub min_x: Scalar,
    pub min_y: Scalar,
    pub max_x: Scalar,
    pub max_y: Scalar,
}

/// A rectangle of whole pixels of the target.
#[derive(Clone, Copy, Debug, PartialEq, Eq, Structural)]
pub struct ScissorRect {
    pub x: u32,
    pub y: u32,
    pub width: u32,
    pub height: u32,
}

/// The surface that a frame is drawn to.
#[derive(Clone, Copy, Debug, PartialEq, Eq, Structural)]
pub struct RenderTarget {
    pub format: ColorFormat,
    /// Width in physical pixels.
    pub width: u32,
    /// Height in physical pixels.
    pub height: u32,
}

/// The smaller of two numbers.
pub open spec fn least(a: int, b: int) -> int {
    if a <= b {
        a
    } else {
        b
    }
}

/// A coordinate of a corner as a pixel boundary of a target that is
/// `bound` pixels long: the coordinate in whole pixels, held to the target.
/// What lies before zero counts as zero, what lies beyond the target as
/// its far edge.
pub open spec fn edge_of(coordinate: Scalar, bound: u32) -> int {
    least(coordinate.pixels() as int, bound as int)
}

/// The pixels from `near` up to `far`, none where `far` is not beyond `near`.
pub open spec fn span(near: int, far: int) -> int {
    if far >= near {
        far - near
    } else {
        0
    }
}

/// The scissor rectangle of a clip rectangle on a target of the given
/// size: the part of the clip rectangle that lies on the target, in whole
/// pixels. Both corners are cut to the target, so a clip rectangle that
/// begins before the target begins at zero and still ends where it ends.
pub open spec fn scissor_of(clip: ScaledClip, width: u32, height: u32) -> ScissorRect {
    let x = edge_of(clip.min_x, width);
    let y = edge_of(clip.min_y, height);
    ScissorRect {
        x: x as u32,
        y: y as u32,
        width: span(x, edge_of(clip.max_x, width)) as u32,
        height: span(y, edge_of(clip.max_y, height)) as u32,
    }
}

/// Computes the scissor rectangle, see [`scissor_of`]. It lies within the
/// target, and it ends where the clip rectangle ends on the target unless
/// it is empty.
pub fn scissor_rect(clip: ScaledClip, width: u32, height: u32) -> (rect: ScissorRect)
    ensures
        rect == scissor_of(clip, width, height),
        rect.x + rect.width <= width,
        rect.y + rect.height <= height,
        rect.width > 0 ==> rect.x + rect.width == edge_of(clip.max_x, width),
        rect.height > 0 ==> rect.y + rect.height == edge_of(clip.max_y, height),
{
    let x = smaller(clip.min_x.to_pixels(), width);
    let y = smaller(clip.min_y.to_pixels(), height);
    let right = smaller(clip.max_x.to_pixels(), width);
    let bottom = smaller(clip.max_y.to_pixels(), height);
    ScissorRect {
        x,
        y,
        width: if right >= x {
            right - x
        } else {
            0
        },
        height: if bottom >= y {
            bottom - y
        } else {
            0
        },
    }
}

/// The smaller of two numbers.
fn smaller(a: u32, b: u32) -> (m: u32)
    ensures
        m == least(a as int, b as int),
{
    if a <= b {
        a
    } else {
        b
    }
}

/// What the UI engine painted within one clip rectangle.
#[derive(Clone, Debug, PartialEq, Eq)]
pub struct PaintBatch {
    pub clip: ScaledClip,
    pub vertices: Vec<EngineVertex>,
    /// Three indices into `vertices` for each triangle.
    pub indices: Vec<u32>,
}

impl PaintBatch {
    /// A batch without indices draws nothing and is passed over.
    pub open spec fn is_skipped(self) -> bool {
        self.indices@.len() == 0
    }

    /// The batch can be drawn by a pipeline of the convention: its index
    /// count can be stated in a draw call, and its vertices fit the vertex
    /// layout.
    pub open spec fn is_drawable(self, convention: TexCoordConvention) -> bool {
        &&& self.indices@.len() <= u32::MAX
        &&& all_in_convention(self.vertices@, convention)
    }
}

/// One indexed draw with the buffers made for it alone.
#[derive(Clone, Debug, PartialEq, Eq)]
pub struct DrawCall {
    /// The contents of the vertex buffer.
    pub vertex_bytes: Vec<u8>,
    /// The contents of the index buffer.
    pub index_bytes: Vec<u8>,
    /// The draw covers the indices from zero up to this count.
    pub index_count: u32,
    pub scissor: ScissorRect,
}

impl DrawCall {
    /// The draw call is the one for the batch: the vertex buffer holds the
    /// image of each vertex, the index buffer the image of the indices, the
    /// draw covers all of them, under the scissor rectangle of the clip.
    pub open spec fn is_draw_of(
        self,
        batch: PaintBatch,
        convention: TexCoordConvention,
        width: u32,
        height: u32,
    ) -> bool {
        &&& is_vertex_stream(
            encoded_vertices(batch.vertices@),
            vertex_stride(convention),
            self.vertex_bytes@,
        )
        &&& native_words(batch.indices@, self.index_bytes@)
        &&& self.index_count == batch.indices@.len()
        &&& self.scissor == scissor_of(batch.clip, width, height)
    }
}

/// Every batch that is not passed over can be drawn.
pub open spec fn all_drawable(batches: Seq<PaintBatch>, convention: TexCoordConvention) -> bool {
    forall|i: int|
        0 <= i < batches.len() ==> (#[trigger] batches[i]).is_skipped() || batches[i].is_drawable(
            convention,
        )
}

/// `draws` is the draw list of `batches`: one draw call for each batch that
/// has indices, in the order of the batches, and nothing else.
pub open spec fn is_draw_list_of(
    draws: Seq<DrawCall>,
    batches: Seq<PaintBatch>,
    convention: TexCoordConvention,
    width: u32,
    height: u32,
) -> bool
    decreases batches.len(),
{
    if batches.len() == 0 {
        draws.len() == 0
    } else if batches.last().is_skipped() {
        is_draw_list_of(draws, batches.drop_last(), convention, width, height)
    } else {
        &&& draws.len() > 0
        &&& draws.last().is_draw_of(batches.last(), convention, width, height)
        &&& is_draw_list_of(draws.drop_last(), batches.drop_last(), convention, width, height)
    }
}

/// Number of batches that have indices.
pub open spec fn drawn_count(batches: Seq<PaintBatch>) -> nat
    decreases batches.len(),
{
    if batches.len() == 0 {
        0
    } else if batches.last().is_skipped() {
        drawn_count(batches.drop_last())
    } else {
        drawn_count(batches.drop_last()) + 1
    }
}

/// The draw call for one batch, if the batch can be drawn.
pub fn draw_call(
    batch: &PaintBatch,
    convention: TexCoordConvention,
    width: u32,
    height: u32,
) -> (r: Option<DrawCall>)
    ensures
        r is Some <==> batch.is_drawable(convention),
        r matches Some(draw) ==> draw.is_draw_of(*batch, convention, width, height),
{
    if batch.indices.len() > u32::MAX as usize {
        return None;
    }
    match encode_vertices(batch.vertices.as_slice(), convention) {
        None => None,
        Some(vertex_bytes) => Some(
            DrawCall {
                vertex_bytes,
                index_bytes: index_bytes(batch.indices.as_slice()),
                index_count: batch.indices.len() as u32,
                scissor: scissor_rect(batch.clip, width, height),
            },
        ),
    }
}

/// The draw list of the batches of a frame, in their order, for a pipeline
/// of the convention and a target of the given size. There is none when a
/// batch that has indices cannot be drawn.
pub fn draw_list(
    batches: &[PaintBatch],
    convention: TexCoordConvention,
    width: u32,
    height: u32,
) -> (r: Option<Vec<DrawCall>>)
    ensures
        r is Some <==> all_drawable(batches@, convention),
        r matches Some(draws) ==> is_draw_list_of(draws@, batches@, convention, width, height),
{
    let mut draws: Vec<DrawCall> = Vec::new();
    let mut i: usize = 0;
    while i < batches.len()
        invariant
            i <= batches@.len(),
            all_drawable(batches@.subrange(0, i as int), convention),
            is_draw_list_of(draws@, batches@.subrange(0, i as int), convention, width, height),
        decreases batches@.len() - i,
    {
        let ghost done = batches@.subrange(0, i as int);
        let ghost next = batches@.subrange(0, i as int + 1);
        let ghost before = draws@;
        assert(next.drop_last() == done);
        assert(next.last() == batches@[i as int]);
        let batch = &batches[i];
        if batch.indices.len() > 0 {
            match draw_call(batch, convention, width, height) {
                None => {
                    return None;
                },
                Some(draw) => {
                    draws.push(draw);
                    assert(draws@.drop_last() == before);
                },
            }
        }
        proof {
            assert forall|j: int| 0 <= j < next.len() implies (#[trigger] next[j]).is_skipped()
                || next[j].is_drawable(convention) by {
                if j < i {
                    assert(next[j] == done[j]);
                }
            }
        }
        i += 1;
    }
    assert(batches@.subrange(0, i as int) == batches@);
    Some(draws)
}

/// Everything that a frame asks of the GPU, in the order in which it has
/// to happen: bind the pipeline, write the uniform buffer if there is a
/// write, then make the draws.
#[derive(Clone, Debug, PartialEq, Eq)]
pub struct FramePlan {
    /// The render pipeline of the target's format.
    pub pipeline: PipelineHandle,
    /// The new contents of the uniform buffer, where they changed.
    pub uniform: Option<Vec<u8>>,
    /// One draw call for each batch that has indices, in the order of the batches.
    pub draws: Vec<DrawCall>,
}

/// A draw list has one draw call for each batch that has indices: never
/// more than there are batches, and none where there is no batch.
pub proof fn lemma_draw_list_len(
    draws: Seq<DrawCall>,
    batches: Seq<PaintBatch>,
    convention: TexCoordConvention,
    width: u32,
    height: u32,
)
    requires
        is_draw_list_of(draws, batches, convention, width, height),
    ensures
        draws.len() == drawn_count(batches),
        draws.len() <= batches.len(),
        batches.len() == 0 ==> draws.len() == 0,
    decreases batches.len(),
{
    if batches.len() > 0 {
        if batches.last().is_skipped() {
            lemma_draw_list_len(draws, batches.drop_last(), convention, width, height);
        } else {
            lemma_draw_list_len(
                draws.drop_last(),
                batches.drop_last(),
                convention,
                width,
                height,
            );
        }
    }
}

/// The buffers of a draw call have the sizes that the batch asks for: the
/// vertex buffer one stride for each vertex, the index buffer four bytes
/// for each index.
pub proof fn lemma_buffer_sizes(
    draw: DrawCall,
    batch: PaintBatch,
    convention: TexCoordConvention,
    width: u32,
    height: u32,
)
    requires
        draw.is_draw_of(batch, convention, width, height),
    ensures
        draw.vertex_bytes@.len() == batch.vertices@.len() * vertex_stride(convention),
        draw.index_bytes@.len() == 4 * batch.indices@.len(),
{
}

/// A scissor rectangle is the clip rectangle cut to the target, whatever
/// the clip rectangle: it lies within the target, it begins at the near
/// corner of the clip rectangle (at zero where that lies before the target),
/// and it ends no later than the far corner, so it never reaches past the
/// clip rectangle. Where the far corner is not beyond the near one, it is
/// empty.
pub proof fn lemma_scissor_is_clip_on_target(clip: ScaledClip, width: u32, height: u32)
    ensures
        ({
            let rect = scissor_of(clip, width, height);
            &&& rect.x + rect.width <= width
            &&& rect.y + rect.height <= height
            &&& rect.x == edge_of(clip.min_x, width)
            &&& rect.y == edge_of(clip.min_y, height)
            &&& rect.x + rect.width <= edge_of(clip.max_x, width) || rect.width == 0
            &&& rect.y + rect.height <= edge_of(clip.max_y, height) || rect.height == 0
            &&& rect.x + rect.width >= edge_of(clip.max_x, width) || rect.width == 0
            &&& rect.y + rect.height >= edge_of(clip.max_y, height) || rect.height == 0
            &&& rect.width == 0 <==> edge_of(clip.max_x, width) <= edge_of(clip.min_x, width)
            &&& rect.height == 0 <==> edge_of(clip.max_y, height) <= edge_of(clip.min_y, height)
        }),
{
}

} // verus!
