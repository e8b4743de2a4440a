//! The geometry codec: the vertex as the GPU reads it, the attribute layout
//! that describes it to the pipeline, and the byte images of vertex and
//! index data.

use crate::bytes::{
    append_bytes, halves_as_bytes, native_halves, native_words, words_as_bytes,
};
use crate::scalar::Scalar;
use vstd::prelude::*;

verus! {

/// How texture coordinates address the atlas.
#[derive(Clone, Copy, Debug, PartialEq, Eq, Structural)]
pub enum TexCoordConvention {
    /// A pair of single-precision numbers, (0, 0) at the top left corner of
    /// the atlas and (1, 1) at the bottom right.
    Normalized,
    /// A pair of unsigned 16-bit texel indices.
    Texel,
}

/// A texture coordinate in one of the two conventions.
#[derive(Clone, Copy, Debug, PartialEq, Eq, Structural)]
pub enum TexCoord {
    Normalized { u: Scalar, v: Scalar },
    Texel { column: u16, row: u16 },
}

impl TexCoord {
    /// The convention that the coordinate is written in.
    pub open spec fn convention(self) -> TexCoordConvention {
        match self {
            TexCoord::Normalized { .. } => TexCoordConvention::Normalized,
            TexCoord::Texel { .. } => TexCoordConvention::Texel,
        }
    }

    /// The convention that the coordinate is written in.
    pub fn get_convention(&self) -> (c: TexCoordConvention)
        ensures
            c == self.convention(),
    {
        match self {
            TexCoord::Normalized { .. } => TexCoordConvention::Normalized,
            TexCoord::Texel { .. } => TexCoordConvention::Texel,
        }
    }
}

/// A vertex as the UI engine tessellates it.
#[derive(Clone, Copy, Debug, PartialEq, Eq)]
pub struct EngineVertex {
    /// Position in logical pixels, x then y.
    pub pos: [Scalar; 2],
    /// Texture coordinate, in the convention of the atlas.
    pub uv: TexCoord,
    /// Red, green, blue and alpha, as the engine delivers them.
    pub color: [u8; 4],
}

/// A vertex as the pipeline reads it from the vertex buffer.
#[derive(Clone, Copy, Debug, PartialEq, Eq)]
pub struct GpuVertex {
    pub a_pos: [Scalar; 2],
    pub a_tc: TexCoord,
    pub a_srgba: [u8; 4],
}

impl GpuVertex {
    /// The vertex that the pipeline must see for an engine vertex: the same
    /// position (still in logical pixels; the uniform buffer carries the
    /// scaling), the same texture coordinate, the same color.
    pub open spec fn encoded(v: EngineVertex) -> GpuVertex {
        GpuVertex { a_pos: v.pos, a_tc: v.uv, a_srgba: v.color }
    }

    /// Converts an engine vertex, see [`GpuVertex::encoded`].
    pub fn encode(v: EngineVertex) -> (g: GpuVertex)
        ensures
            g == GpuVertex::encoded(v),
    {
        GpuVertex { a_pos: v.pos, a_tc: v.uv, a_srgba: v.color }
    }

    /// The two position components as words.
    pub open spec fn position_words(self) -> Seq<u32> {
        seq![self.a_pos@[0].bits, self.a_pos@[1].bits]
    }
}

/// Number of bytes of the position of a vertex.
pub const POSITION_SIZE: usize = 8;

/// Number of bytes of the color of a vertex.
pub const COLOR_SIZE: usize = 4;

/// Number of bytes that a texture coordinate occupies in a vertex.
pub open spec fn texcoord_size(convention: TexCoordConvention) -> nat {
    match convention {
        TexCoordConvention::Normalized => 8,
        TexCoordConvention::Texel => 4,
    }
}

/// Number of bytes from one vertex to the next in a vertex buffer.
pub open spec fn vertex_stride(convention: TexCoordConvention) -> nat {
    POSITION_SIZE as nat + texcoord_size(convention) + COLOR_SIZE as nat
}

/// `bytes` is a memory image of the texture coordinate.
pub open spec fn is_texcoord_image(tc: TexCoord, bytes: Seq<u8>) -> bool {
    match tc {
        TexCoord::Normalized { u, v } => native_words(seq![u.bits, v.bits], bytes),
        TexCoord::Texel { column, row } => native_halves(seq![column, row], bytes),
    }
}

/// `bytes` is a memory image of the vertex: its position, then its texture
/// coordinate, then its color, with nothing in between, before or after.
pub open spec fn is_vertex_image(v: GpuVertex, bytes: Seq<u8>) -> bool {
    let tc_end = POSITION_SIZE as int + texcoord_size(v.a_tc.convention());
    &&& bytes.len() == vertex_stride(v.a_tc.convention())
    &&& native_words(v.position_words(), bytes.subrange(0, POSITION_SIZE as int))
    &&& is_texcoord_image(v.a_tc, bytes.subrange(POSITION_SIZE as int, tc_end))
    &&& bytes.subrange(tc_end, tc_end + COLOR_SIZE as int) == v.a_srgba@
}

/// `bytes` holds an image of each vertex of `vs`, in order, `stride` bytes each.
pub open spec fn is_vertex_stream(vs: Seq<GpuVertex>, stride: nat, bytes: Seq<u8>) -> bool {
    &&& bytes.len() == vs.len() * stride
    &&& forall|i: int|
        0 <= i < vs.len() ==> is_vertex_image(
            #[trigger] vs[i],
            bytes.subrange(i * stride, i * stride + stride),
        )
}

/// Number of bytes from one vertex to the next in a vertex buffer.
pub fn stride_of(convention: TexCoordConvention) -> (stride: usize)
    ensures
        stride == vertex_stride(convention),
{
    match convention {
        TexCoordConvention::Normalized => 20,
        TexCoordConvention::Texel => 16,
    }
}

/// Appends a memory image of the vertex to `out`.
pub fn write_vertex(v: &GpuVertex, out: &mut Vec<u8>)
    ensures
        final(out)@.len() == old(out)@.len() + vertex_stride(v.a_tc.convention()),
        final(out)@.subrange(0, old(out)@.len() as int) == old(out)@,
        is_vertex_image(*v, final(out)@.subrange(old(out)@.len() as int, final(out)@.len() as int)),
{
    let ghost before = out@;
    let position: [u32; 2] = [v.a_pos[0].bits, v.a_pos[1].bits];
    let position_image = words_as_bytes(position.as_slice());
    assert(position@ == v.position_words());
    append_bytes(out, position_image);
    let ghost texcoord_image: Seq<u8>;
    match v.a_tc {
        TexCoord::Normalized { u, v: w } => {
            let pair: [u32; 2] = [u.bits, w.bits];
            let image = words_as_bytes(pair.as_slice());
            assert(pair@ == seq![u.bits, w.bits]);
            append_bytes(out, image);
            proof {
                texcoord_image = image@;
            }
        },
        TexCoord::Texel { column, row } => {
            let pair: [u16; 2] = [column, row];
            let image = halves_as_bytes(pair.as_slice());
            assert(pair@ == seq![column, row]);
            append_bytes(out, image);
            proof {
                texcoord_image = image@;
            }
        },
    }
    append_bytes(out, v.a_srgba.as_slice());
    proof {
        let start = before.len() as int;
        let image = out@.subrange(start, out@.len() as int);
        let tc_end = POSITION_SIZE as int + texcoord_size(v.a_tc.convention());
        assert(is_texcoord_image(v.a_tc, texcoord_image));
        assert(out@ == before + position_image@ + texcoord_image + v.a_srgba@);
        assert(image.subrange(0, POSITION_SIZE as int) == position_image@);
        assert(image.subrange(POSITION_SIZE as int, tc_end) == texcoord_image);
        assert(image.subrange(tc_end, tc_end + COLOR_SIZE as int) == v.a_srgba@);
        assert(out@.subrange(0, start) == before);
    }
}

/// Every vertex of `vertices` has its texture coordinate in `convention`.
pub open spec fn all_in_convention(vertices: Seq<EngineVertex>, convention: TexCoordConvention) -> bool {
    forall|i: int| 0 <= i < vertices.len() ==> (#[trigger] vertices[i]).uv.convention() == convention
}

/// The vertices as the pipeline must see them, in the same order.
pub open spec fn encoded_vertices(vertices: Seq<EngineVertex>) -> Seq<GpuVertex> {
    vertices.map_values(|v: EngineVertex| GpuVertex::encoded(v))
}

/// The byte image of a sequence of engine vertices, each converted for the
/// pipeline: the contents of a vertex buffer. There is none when a vertex
/// has its texture coordinate in another convention than the one asked for,
/// since the vertices of one buffer share one layout.
pub fn encode_vertices(vertices: &[EngineVertex], convention: TexCoordConvention) -> (r: Option<
    Vec<u8>,
>)
    ensures
        r is Some <==> all_in_convention(vertices@, convention),
        r matches Some(bytes) ==> is_vertex_stream(
            encoded_vertices(vertices@),
            vertex_stride(convention),
            bytes@,
        ),
{
    let ghost stride = vertex_stride(convention);
    let ghost encoded = encoded_vertices(vertices@);
    let mut bytes: Vec<u8> = Vec::new();
    let mut i: usize = 0;
    assert(encoded.subrange(0, 0).len() * stride == 0);
    while i < vertices.len()
        invariant
            i <= vertices@.len(),
            stride == vertex_stride(convention),
            encoded == encoded_vertices(vertices@),
            all_in_convention(vertices@.subrange(0, i as int), convention),
            is_vertex_stream(encoded.subrange(0, i as int), stride, bytes@),
        decreases vertices@.len() - i,
    {
        let ghost before = bytes@;
        let vertex = vertices[i];
        if vertex.uv.get_convention() != convention {
            return None;
        }
        let g = GpuVertex::encode(vertex);
        write_vertex(&g, &mut bytes);
        proof {
            let done = encoded.subrange(0, i as int);
            let next = encoded.subrange(0, i as int + 1);
            assert(g == encoded[i as int]);
            assert(i * stride + stride == (i + 1) * stride) by (nonlinear_arith);
            assert(before.len() == i * stride);
            assert forall|j: int| 0 <= j < next.len() implies is_vertex_image(
                #[trigger] next[j],
                bytes@.subrange(j * stride, j * stride + stride),
            ) by {
                if j < i {
                    assert(j * stride + stride <= i * stride) by (nonlinear_arith)
                        requires
                            0 <= j < i,
                            stride >= 0,
                    ;
                    assert(next[j] == done[j]);
                    assert(bytes@.subrange(j * stride, j * stride + stride) == before.subrange(
                        j * stride,
                        j * stride + stride,
                    )) by {
                        assert(bytes@.subrange(0, before.len() as int) == before);
                    }
                } else {
                    assert(next[j] == g);
                    assert(bytes@.subrange(j * stride, j * stride + stride) == bytes@.subrange(
                        before.len() as int,
                        bytes@.len() as int,
                    ));
                }
            }
            assert forall|j: int| 0 <= j < i + 1 implies (#[trigger] vertices@.subrange(
                0,
                i as int + 1,
            )[j]).uv.convention() == convention by {
                if j < i {
                    assert(vertices@.subrange(0, i as int + 1)[j] == vertices@.subrange(
                        0,
                        i as int,
                    )[j]);
                }
            }
        }
        i += 1;
    }
    assert(encoded.subrange(0, i as int) == encoded);
    assert(vertices@.subrange(0, i as int) == vertices@);
    Some(bytes)
}

/// The byte image of the indices of a batch: the contents of an index buffer.
pub fn index_bytes(indices: &[u32]) -> (bytes: Vec<u8>)
    ensures
        native_words(indices@, bytes@),
{
    let image = words_as_bytes(indices);
    let mut bytes: Vec<u8> = Vec::new();
    append_bytes(&mut bytes, image);
    assert(bytes@ == image@);
    bytes
}

/// The element formats that a vertex attribute can have.
#[derive(Clone, Copy, Debug, PartialEq, Eq, Structural)]
pub enum VertexFormat {
    /// Two single-precision numbers.
    Float2,
    /// Two unsigned 16-bit integers.
    Ushort2,
    /// Four unsigned bytes.
    Uchar4,
}

impl VertexFormat {
    /// Number of bytes of an attribute of this format.
    pub open spec fn size(self) -> nat {
        match self {
            VertexFormat::Float2 => 8,
            VertexFormat::Ushort2 => 4,
            VertexFormat::Uchar4 => 4,
        }
    }

    /// Number of bytes of an attribute of this format.
    pub fn byte_size(self) -> (n: u64)
        ensures
            n == self.size(),
    {
        match self {
            VertexFormat::Float2 => 8,
            VertexFormat::Ushort2 => 4,
            VertexFormat::Uchar4 => 4,
        }
    }
}

/// One input of the vertex shader: where it sits in a vertex and what it holds.
#[derive(Clone, Copy, Debug, PartialEq, Eq, Structural)]
pub struct VertexAttribute {
    pub shader_location: u32,
    pub offset: u64,
    pub format: VertexFormat,
}

/// The description of the vertex buffer that the pipeline is built with.
#[derive(Clone, Copy, Debug, PartialEq, Eq)]
pub struct VertexLayout {
    /// Number of bytes from one vertex to the next.
    pub stride: u64,
    /// Position, texture coordinate and color, at shader locations 0, 1 and 2.
    pub attributes: [VertexAttribute; 3],
}

/// The format of the texture coordinate attribute in each convention.
pub open spec fn texcoord_format(convention: TexCoordConvention) -> VertexFormat {
    match convention {
        TexCoordConvention::Normalized => VertexFormat::Float2,
        TexCoordConvention::Texel => VertexFormat::Ushort2,
    }
}

/// The attributes of a vertex: each starts where the one before it ends.
pub open spec fn vertex_attributes(convention: TexCoordConvention) -> Seq<VertexAttribute> {
    seq![
        VertexAttribute { shader_location: 0, offset: 0, format: VertexFormat::Float2 },
        VertexAttribute { shader_location: 1, offset: 8, format: texcoord_format(convention) },
        VertexAttribute {
            shader_location: 2,
            offset: (8 + texcoord_format(convention).size()) as u64,
            format: VertexFormat::Uchar4,
        },
    ]
}

/// The vertex buffer layout for a convention. Offsets are not written down
/// but summed from the sizes of the formats, in the order of the locations.
pub fn vertex_layout(convention: TexCoordConvention) -> (layout: VertexLayout)
    ensures
        layout.stride == vertex_stride(convention),
        layout.attributes@ == vertex_attributes(convention),
{
    let texcoord = match convention {
        TexCoordConvention::Normalized => VertexFormat::Float2,
        TexCoordConvention::Texel => VertexFormat::Ushort2,
    };
    let position = VertexAttribute { shader_location: 0, offset: 0, format: VertexFormat::Float2 };
    let texcoord_offset: u64 = position.offset + position.format.byte_size();
    let coordinate = VertexAttribute {
        shader_location: 1,
        offset: texcoord_offset,
        format: texcoord,
    };
    let color_offset: u64 = coordinate.offset + coordinate.format.byte_size();
    let color = VertexAttribute {
        shader_location: 2,
        offset: color_offset,
        format: VertexFormat::Uchar4,
    };
    let stride: u64 = color.offset + color.format.byte_size();
    let layout = VertexLayout { stride, attributes: [position, coordinate, color] };
    assert(layout.attributes@ =~= vertex_attributes(convention));
    layout
}

/// The bytes of `image` that the attribute covers.
pub open spec fn attribute_bytes(image: Seq<u8>, attribute: VertexAttribute) -> Seq<u8> {
    image.subrange(attribute.offset as int, attribute.offset + attribute.format.size())
}

/// The declared layout and the bytes agree, in both conventions: the three
/// attributes follow each other without gap or overlap from offset zero to
/// the stride, the stride is the size of a vertex image, each attribute has
/// the format of the field it stands for, and in every image of a vertex the
/// bytes that an attribute covers are the image of that field.
pub proof fn lemma_layout_matches_image(v: GpuVertex, image: Seq<u8>)
    requires
        is_vertex_image(v, image),
    ensures
        ({
            let convention = v.a_tc.convention();
            let a = vertex_attributes(convention);
            &&& a.len() == 3
            &&& a[0].offset == 0
            &&& a[1].offset == a[0].offset + a[0].format.size()
            &&& a[2].offset == a[1].offset + a[1].format.size()
            &&& a[2].offset + a[2].format.size() == vertex_stride(convention)
            &&& image.len() == vertex_stride(convention)
            &&& a[0].shader_location == 0 && a[0].format == VertexFormat::Float2
            &&& a[1].shader_location == 1 && a[1].format == texcoord_format(convention)
            &&& a[2].shader_location == 2 && a[2].format == VertexFormat::Uchar4
            &&& native_words(v.position_words(), attribute_bytes(image, a[0]))
            &&& is_texcoord_image(v.a_tc, attribute_bytes(image, a[1]))
            &&& attribute_bytes(image, a[2]) == v.a_srgba@
        }),
{
}

} // verus!
