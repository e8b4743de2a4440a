use egui_wgpu::frame::{draw_call, draw_list, scissor_rect, PaintBatch, ScaledClip, ScissorRect};
use egui_wgpu::geometry::{encode_vertices, index_bytes, EngineVertex, TexCoord, TexCoordConvention};
use egui_wgpu::Scalar;

fn s(value: f32) -> Scalar {
    Scalar::from_bits(value.to_bits())
}

/// The clip rectangle in physical pixels, computed as a caller does.
fn scaled(min: (f32, f32), max: (f32, f32), density: f32) -> ScaledClip {
    ScaledClip {
        min_x: s(min.0 * density),
        min_y: s(min.1 * density),
        max_x: s(max.0 * density),
        max_y: s(max.1 * density),
    }
}

fn vertex(x: f32, y: f32) -> EngineVertex {
    EngineVertex {
        pos: [s(x), s(y)],
        uv: TexCoord::Normalized { u: s(0.0), v: s(0.0) },
        color: [255, 255, 255, 255],
    }
}

fn quad(clip: ScaledClip) -> PaintBatch {
    PaintBatch {
        clip,
        vertices: vec![vertex(0.0, 0.0), vertex(1.0, 0.0), vertex(1.0, 1.0), vertex(0.0, 1.0)],
        indices: vec![0, 1, 2, 2, 3, 0],
    }
}

#[test]
fn scissor_of_a_clip_at_density_two() {
    let clip = scaled((10.0, 10.0), (50.0, 40.0), 2.0);
    assert_eq!(
        scissor_rect(clip, 1000, 1000),
        ScissorRect { x: 20, y: 20, width: 80, height: 60 }
    );
}

#[test]
fn scissor_of_the_whole_screen() {
    let clip = scaled((0.0, 0.0), (800.0, 600.0), 1.0);
    assert_eq!(scissor_rect(clip, 800, 600), ScissorRect { x: 0, y: 0, width: 800, height: 600 });
}

#[test]
fn scissor_is_cut_down_to_the_target() {
    let clip = scaled((700.0, 500.0), (900.0, 700.0), 1.0);
    assert_eq!(
        scissor_rect(clip, 800, 600),
        ScissorRect { x: 700, y: 500, width: 100, height: 100 }
    );
    let outside = scaled((900.0, 900.0), (1000.0, 1000.0), 1.0);
    assert_eq!(
        scissor_rect(outside, 800, 600),
        ScissorRect { x: 800, y: 600, width: 0, height: 0 }
    );
    let unbounded = ScaledClip {
        min_x: s(f32::NEG_INFINITY),
        min_y: s(-5.0),
        max_x: s(f32::INFINITY),
        max_y: s(1.0e30),
    };
    assert_eq!(
        scissor_rect(unbounded, 800, 600),
        ScissorRect { x: 0, y: 0, width: 800, height: 600 }
    );
}

#[test]
fn scissor_of_a_clip_that_begins_before_the_target_ends_where_the_clip_ends() {
    let clip = scaled((-10.0, -10.0), (20.0, 30.0), 1.0);
    assert_eq!(scissor_rect(clip, 800, 600), ScissorRect { x: 0, y: 0, width: 20, height: 30 });
    let doubled = scaled((-10.0, -2.5), (20.0, 30.0), 2.0);
    assert_eq!(scissor_rect(doubled, 800, 600), ScissorRect { x: 0, y: 0, width: 40, height: 60 });
    let one_axis = scaled((-10.0, 5.0), (20.0, 30.0), 1.0);
    assert_eq!(scissor_rect(one_axis, 800, 600), ScissorRect { x: 0, y: 5, width: 20, height: 25 });
}

#[test]
fn scissor_of_a_clip_before_the_target_is_empty() {
    let clip = scaled((-30.0, -30.0), (-10.0, -20.0), 1.0);
    assert_eq!(scissor_rect(clip, 800, 600), ScissorRect { x: 0, y: 0, width: 0, height: 0 });
}

#[test]
fn scissor_of_a_clip_whose_corners_are_crossed_is_empty() {
    let clip = scaled((50.0, 40.0), (10.0, 10.0), 1.0);
    assert_eq!(scissor_rect(clip, 800, 600), ScissorRect { x: 50, y: 40, width: 0, height: 0 });
}

#[test]
fn scissor_lies_within_the_target_and_the_clip() {
    let values = [-1.0e9f32, -10.0, -0.5, 0.0, 0.5, 7.9, 20.0, 799.9, 800.0, 1.0e9, f32::INFINITY];
    for &min in &values {
        for &max in &values {
            let clip = scaled((min, min), (max, max), 1.0);
            let rect = scissor_rect(clip, 800, 600);
            assert!(rect.x + rect.width <= 800 && rect.y + rect.height <= 600);
            assert_eq!(rect.x, (min as u32).min(800));
            if rect.width > 0 {
                assert_eq!(rect.x + rect.width, (max as u32).min(800));
            } else {
                assert!((max as u32).min(800) <= (min as u32).min(800));
            }
        }
    }
}

#[test]
fn scissor_rounds_both_corners_toward_zero() {
    let clip = scaled((10.3, 10.9), (20.7, 20.2), 1.5);
    let expect = ScissorRect {
        x: (10.3f32 * 1.5) as u32,
        y: (10.9f32 * 1.5) as u32,
        width: (20.7f32 * 1.5) as u32 - (10.3f32 * 1.5) as u32,
        height: (20.2f32 * 1.5) as u32 - (10.9f32 * 1.5) as u32,
    };
    assert_eq!(scissor_rect(clip, 4000, 4000), expect);
    assert_eq!(expect, ScissorRect { x: 15, y: 16, width: 16, height: 14 });
}

#[test]
fn scissor_of_a_clip_that_is_not_a_number_is_empty() {
    let nan = s(f32::NAN);
    let clip = ScaledClip { min_x: nan, min_y: nan, max_x: nan, max_y: nan };
    assert_eq!(scissor_rect(clip, 800, 600), ScissorRect { x: 0, y: 0, width: 0, height: 0 });
}

#[test]
fn draw_call_holds_the_buffers_of_the_batch() {
    let batch = quad(scaled((0.0, 0.0), (800.0, 600.0), 1.0));
    let draw = draw_call(&batch, TexCoordConvention::Normalized, 800, 600).unwrap();
    assert_eq!(draw.index_count, 6);
    assert_eq!(draw.scissor, ScissorRect { x: 0, y: 0, width: 800, height: 600 });
    assert_eq!(draw.vertex_bytes.len(), 20 * 4);
    assert_eq!(draw.index_bytes.len(), 4 * 6);
    assert_eq!(
        Some(draw.vertex_bytes),
        encode_vertices(&batch.vertices, TexCoordConvention::Normalized)
    );
    assert_eq!(draw.index_bytes, index_bytes(&batch.indices));
}

#[test]
fn draw_call_of_a_batch_in_another_convention_is_refused() {
    let batch = quad(scaled((0.0, 0.0), (8.0, 6.0), 1.0));
    assert_eq!(draw_call(&batch, TexCoordConvention::Texel, 800, 600), None);
}

#[test]
fn draw_list_keeps_the_order_of_the_batches() {
    let batches = vec![
        quad(scaled((0.0, 0.0), (10.0, 10.0), 1.0)),
        quad(scaled((20.0, 0.0), (30.0, 10.0), 1.0)),
        quad(scaled((40.0, 0.0), (50.0, 10.0), 1.0)),
    ];
    let draws = draw_list(&batches, TexCoordConvention::Normalized, 800, 600).unwrap();
    assert_eq!(draws.len(), 3);
    assert_eq!(draws.iter().map(|d| d.scissor.x).collect::<Vec<_>>(), vec![0, 20, 40]);
}

#[test]
fn draw_list_passes_over_batches_without_indices() {
    let mut empty = quad(scaled((20.0, 0.0), (30.0, 10.0), 1.0));
    empty.indices.clear();
    let batches = vec![
        empty.clone(),
        quad(scaled((0.0, 0.0), (10.0, 10.0), 1.0)),
        empty.clone(),
        empty.clone(),
        quad(scaled((40.0, 0.0), (50.0, 10.0), 1.0)),
        empty,
    ];
    let draws = draw_list(&batches, TexCoordConvention::Normalized, 800, 600).unwrap();
    assert_eq!(draws.len(), 2);
    assert_eq!(draws[0].scissor.x, 0);
    assert_eq!(draws[1].scissor.x, 40);
}

#[test]
fn draw_list_of_no_batches_is_empty() {
    assert_eq!(draw_list(&[], TexCoordConvention::Normalized, 800, 600), Some(Vec::new()));
}

#[test]
fn draw_list_does_not_look_at_batches_that_it_passes_over() {
    let mut skipped = quad(scaled((0.0, 0.0), (1.0, 1.0), 1.0));
    skipped.indices.clear();
    skipped.vertices[0].uv = TexCoord::Texel { column: 1, row: 1 };
    let draws = draw_list(&[skipped], TexCoordConvention::Normalized, 800, 600);
    assert_eq!(draws, Some(Vec::new()));
}

#[test]
fn draw_list_is_refused_for_a_batch_that_cannot_be_drawn() {
    let mut bad = quad(scaled((0.0, 0.0), (1.0, 1.0), 1.0));
    bad.vertices[2].uv = TexCoord::Texel { column: 1, row: 1 };
    let batches = vec![quad(scaled((0.0, 0.0), (1.0, 1.0), 1.0)), bad];
    assert_eq!(draw_list(&batches, TexCoordConvention::Normalized, 800, 600), None);
}
