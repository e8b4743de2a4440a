use egui_wgpu::geometry::{
    encode_vertices, index_bytes, stride_of, vertex_layout, write_vertex, EngineVertex, GpuVertex,
    TexCoord, TexCoordConvention, VertexFormat,
};
use egui_wgpu::Scalar;

fn s(value: f32) -> Scalar {
    Scalar::from_bits(value.to_bits())
}

fn normalized(x: f32, y: f32, u: f32, v: f32, color: [u8; 4]) -> EngineVertex {
    EngineVertex { pos: [s(x), s(y)], uv: TexCoord::Normalized { u: s(u), v: s(v) }, color }
}

fn texel(x: f32, y: f32, column: u16, row: u16, color: [u8; 4]) -> EngineVertex {
    EngineVertex { pos: [s(x), s(y)], uv: TexCoord::Texel { column, row }, color }
}

#[test]
fn encode_passes_every_field_through() {
    let v = normalized(12.5, -3.0, 0.25, 0.75, [1, 2, 3, 4]);
    let g = GpuVertex::encode(v);
    assert_eq!(g.a_pos, v.pos);
    assert_eq!(g.a_tc, v.uv);
    assert_eq!(g.a_srgba, [1, 2, 3, 4]);
}

#[test]
fn encode_passes_nan_through_unchanged() {
    let nan = Scalar::from_bits(0x7fc1_2345);
    let v = EngineVertex { pos: [nan, nan], uv: TexCoord::Normalized { u: nan, v: nan }, color: [0; 4] };
    let g = GpuVertex::encode(v);
    assert_eq!(g.a_pos[0].to_bits(), 0x7fc1_2345);
    assert_eq!(g.a_tc, TexCoord::Normalized { u: nan, v: nan });
}

#[test]
fn convention_of_a_texture_coordinate() {
    assert_eq!(
        TexCoord::Normalized { u: s(0.0), v: s(1.0) }.get_convention(),
        TexCoordConvention::Normalized
    );
    assert_eq!(TexCoord::Texel { column: 3, row: 4 }.get_convention(), TexCoordConvention::Texel);
}

#[test]
fn stride_is_twenty_or_sixteen_bytes() {
    assert_eq!(stride_of(TexCoordConvention::Normalized), 20);
    assert_eq!(stride_of(TexCoordConvention::Texel), 16);
}

#[test]
fn format_sizes() {
    assert_eq!(VertexFormat::Float2.byte_size(), 8);
    assert_eq!(VertexFormat::Ushort2.byte_size(), 4);
    assert_eq!(VertexFormat::Uchar4.byte_size(), 4);
}

#[test]
fn layout_of_normalized_vertices() {
    let layout = vertex_layout(TexCoordConvention::Normalized);
    assert_eq!(layout.stride, 20);
    let a = layout.attributes;
    assert_eq!((a[0].shader_location, a[0].offset, a[0].format), (0, 0, VertexFormat::Float2));
    assert_eq!((a[1].shader_location, a[1].offset, a[1].format), (1, 8, VertexFormat::Float2));
    assert_eq!((a[2].shader_location, a[2].offset, a[2].format), (2, 16, VertexFormat::Uchar4));
}

#[test]
fn layout_of_texel_vertices() {
    let layout = vertex_layout(TexCoordConvention::Texel);
    assert_eq!(layout.stride, 16);
    let a = layout.attributes;
    assert_eq!((a[0].shader_location, a[0].offset, a[0].format), (0, 0, VertexFormat::Float2));
    assert_eq!((a[1].shader_location, a[1].offset, a[1].format), (1, 8, VertexFormat::Ushort2));
    assert_eq!((a[2].shader_location, a[2].offset, a[2].format), (2, 12, VertexFormat::Uchar4));
}

#[test]
fn vertex_image_matches_the_layout_in_both_conventions() {
    for convention in [TexCoordConvention::Normalized, TexCoordConvention::Texel] {
        let v = match convention {
            TexCoordConvention::Normalized => normalized(1.0, 2.0, 0.5, 0.25, [9, 8, 7, 6]),
            TexCoordConvention::Texel => texel(1.0, 2.0, 0x0102, 0x0304, [9, 8, 7, 6]),
        };
        let mut out = vec![0xaa_u8];
        write_vertex(&GpuVertex::encode(v), &mut out);
        let layout = vertex_layout(convention);
        assert_eq!(out[0], 0xaa);
        let image = &out[1..];
        assert_eq!(image.len() as u64, layout.stride);
        let a = layout.attributes;
        let field = |k: usize| {
            let start = a[k].offset as usize;
            &image[start..start + a[k].format.byte_size() as usize]
        };
        let mut position = Vec::new();
        position.extend_from_slice(&1.0f32.to_ne_bytes());
        position.extend_from_slice(&2.0f32.to_ne_bytes());
        assert_eq!(field(0), &position[..]);
        let mut coordinate = Vec::new();
        match convention {
            TexCoordConvention::Normalized => {
                coordinate.extend_from_slice(&0.5f32.to_ne_bytes());
                coordinate.extend_from_slice(&0.25f32.to_ne_bytes());
            }
            TexCoordConvention::Texel => {
                coordinate.extend_from_slice(&0x0102u16.to_ne_bytes());
                coordinate.extend_from_slice(&0x0304u16.to_ne_bytes());
            }
        }
        assert_eq!(field(1), &coordinate[..]);
        assert_eq!(field(2), &[9, 8, 7, 6]);
    }
}

#[test]
fn vertex_buffer_holds_the_vertices_in_order() {
    let vertices = [
        normalized(0.0, 0.0, 0.0, 0.0, [255, 0, 0, 255]),
        normalized(800.0, 0.0, 1.0, 0.0, [0, 255, 0, 255]),
        normalized(800.0, 600.0, 1.0, 1.0, [0, 0, 255, 255]),
    ];
    let bytes = encode_vertices(&vertices, TexCoordConvention::Normalized).unwrap();
    assert_eq!(bytes.len(), 60);
    let mut expected = Vec::new();
    for (x, y, u, v, c) in [
        (0.0f32, 0.0f32, 0.0f32, 0.0f32, [255u8, 0, 0, 255]),
        (800.0, 0.0, 1.0, 0.0, [0, 255, 0, 255]),
        (800.0, 600.0, 1.0, 1.0, [0, 0, 255, 255]),
    ] {
        for f in [x, y, u, v] {
            expected.extend_from_slice(&f.to_ne_bytes());
        }
        expected.extend_from_slice(&c);
    }
    assert_eq!(bytes, expected);
}

#[test]
fn vertex_buffer_of_texel_vertices() {
    let vertices = [texel(4.0, 8.0, 1, 2, [1, 2, 3, 4]), texel(5.0, 9.0, 65535, 0, [5, 6, 7, 8])];
    let bytes = encode_vertices(&vertices, TexCoordConvention::Texel).unwrap();
    assert_eq!(bytes.len(), 32);
    let mut expected = Vec::new();
    expected.extend_from_slice(&4.0f32.to_ne_bytes());
    expected.extend_from_slice(&8.0f32.to_ne_bytes());
    expected.extend_from_slice(&1u16.to_ne_bytes());
    expected.extend_from_slice(&2u16.to_ne_bytes());
    expected.extend_from_slice(&[1, 2, 3, 4]);
    expected.extend_from_slice(&5.0f32.to_ne_bytes());
    expected.extend_from_slice(&9.0f32.to_ne_bytes());
    expected.extend_from_slice(&65535u16.to_ne_bytes());
    expected.extend_from_slice(&0u16.to_ne_bytes());
    expected.extend_from_slice(&[5, 6, 7, 8]);
    assert_eq!(bytes, expected);
}

#[test]
fn vertex_buffer_of_no_vertices_is_empty() {
    assert_eq!(encode_vertices(&[], TexCoordConvention::Texel), Some(Vec::new()));
    assert_eq!(encode_vertices(&[], TexCoordConvention::Normalized), Some(Vec::new()));
}

#[test]
fn vertex_in_another_convention_is_refused() {
    let vertices = [normalized(0.0, 0.0, 0.0, 0.0, [0; 4]), texel(0.0, 0.0, 1, 1, [0; 4])];
    assert_eq!(encode_vertices(&vertices, TexCoordConvention::Normalized), None);
    assert_eq!(encode_vertices(&vertices, TexCoordConvention::Texel), None);
    assert!(encode_vertices(&vertices[..1], TexCoordConvention::Normalized).is_some());
    assert!(encode_vertices(&vertices[1..], TexCoordConvention::Texel).is_some());
}

#[test]
fn index_buffer_holds_four_bytes_for_each_index() {
    let indices = [0u32, 1, 2, 2, 3, 0x0102_0304];
    let bytes = index_bytes(&indices);
    assert_eq!(bytes.len(), 24);
    let mut expected = Vec::new();
    for i in indices {
        expected.extend_from_slice(&i.to_ne_bytes());
    }
    assert_eq!(bytes, expected);
    assert!(index_bytes(&[]).is_empty());
}
