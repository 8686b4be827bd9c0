use render_core::context::{AcquireError, RenderContext};
use render_core::geometry::{indices, vertices};
use render_core::layout::{demo_vertex_layout, AttributeFormat, VertexAttribute};
use render_core::pass::{DrawCall, FrameRenderer};
use render_core::raster::{covers, viewport_point, ScreenTriangle};
use render_core::Color;

fn demo_renderer() -> FrameRenderer {
    FrameRenderer::build(&vertices(), &indices(), demo_vertex_layout())
}

#[test]
fn indices_stay_in_vertex_range() {
    let vs = vertices();
    let is = indices();
    assert_eq!(vs.len(), 5);
    assert_eq!(is.len(), 9);
    for &i in is.iter() {
        assert!((i as usize) < vs.len());
    }
}

#[test]
fn vertex_layout_matches_packed_floats() {
    let layout = demo_vertex_layout();
    assert_eq!(layout.array_stride, 20);
    assert_eq!(layout.attributes.len(), 2);
    assert_eq!(
        layout.attributes[0],
        VertexAttribute { format: AttributeFormat::Float32x3, offset: 0, shader_location: 0 }
    );
    assert_eq!(
        layout.attributes[1],
        VertexAttribute { format: AttributeFormat::Float32x2, offset: 12, shader_location: 1 }
    );
    assert_eq!(AttributeFormat::Float32x3.size(), 12);
    assert_eq!(AttributeFormat::Float32x2.size(), 8);
}

#[test]
fn draw_calls_cover_full_counts() {
    let renderer = demo_renderer();
    assert_eq!(renderer.vertex_count, 5);
    assert_eq!(renderer.index_count, 9);
    let record = renderer.encode_pass(Color::transparent_black());
    assert_eq!(
        record.calls,
        vec![
            DrawCall::Draw { vertex_count: 5 },
            DrawCall::DrawIndexed { index_count: 9 },
        ]
    );
}

#[test]
fn no_indices_means_one_draw_call() {
    let renderer = FrameRenderer::build(&vertices(), &Vec::new(), demo_vertex_layout());
    let record = renderer.encode_pass(Color::transparent_black());
    assert_eq!(record.calls, vec![DrawCall::Draw { vertex_count: 5 }]);
}

#[test]
fn clear_only_pass_is_uniform() {
    let mut ctx = RenderContext::new(16, 9, 0);
    ctx.configure(16, 9);
    let clear = Color { r_bits: 0, g_bits: 0, b_bits: 0, a_bits: 0 };
    let renderer = demo_renderer();
    let shown = renderer
        .render(&ctx, clear, &Vec::new(), None)
        .expect("fault-free render");
    assert_eq!(shown.width(), 16);
    assert_eq!(shown.height(), 9);
    for y in 0..9 {
        for x in 0..16 {
            assert_eq!(shown.pixel(x, y), clear);
        }
    }
}

#[test]
fn render_reports_fault() {
    let ctx = RenderContext::new(16, 9, 0);
    let renderer = demo_renderer();
    let r = renderer.render(
        &ctx,
        Color::transparent_black(),
        &Vec::new(),
        Some(AcquireError::OutOfMemory),
    );
    match r {
        Err(e) => assert_eq!(e, AcquireError::OutOfMemory),
        Ok(_) => panic!("a reported fault must fail the render"),
    }
}

#[test]
fn viewport_maps_demo_triangle() {
    // The classic triangle (0, 0.5), (-0.5, -0.5), (0.5, -0.5) on an
    // 800 by 600 surface; coordinates come out in two-thousandths of a
    // pixel, so dividing by 2000 gives whole pixels.
    let (x0, y0) = viewport_point(0, 500, 800, 600);
    let (x1, y1) = viewport_point(-500, -500, 800, 600);
    let (x2, y2) = viewport_point(500, -500, 800, 600);
    assert_eq!((x0 / 2000, y0 / 2000), (400, 150));
    assert_eq!((x1 / 2000, y1 / 2000), (200, 450));
    assert_eq!((x2 / 2000, y2 / 2000), (600, 450));
}

#[test]
fn demo_triangle_covers_expected_region() {
    let white = Color {
        r_bits: f64::to_bits(1.0),
        g_bits: f64::to_bits(1.0),
        b_bits: f64::to_bits(1.0),
        a_bits: f64::to_bits(1.0),
    };
    let (x0, y0) = viewport_point(0, 500, 800, 600);
    let (x1, y1) = viewport_point(-500, -500, 800, 600);
    let (x2, y2) = viewport_point(500, -500, 800, 600);
    let tri = ScreenTriangle { x0, y0, x1, y1, x2, y2, color: white };
    // Inside: the centroid region.
    assert!(covers(&tri, 400, 300));
    assert!(covers(&tri, 400, 440));
    // Outside: the corners of the screen and points above the apex.
    assert!(!covers(&tri, 0, 0));
    assert!(!covers(&tri, 799, 0));
    assert!(!covers(&tri, 0, 599));
    assert!(!covers(&tri, 799, 599));
    assert!(!covers(&tri, 400, 100));
    // Outside: left of the left base corner and right of the right one.
    assert!(!covers(&tri, 150, 440));
    assert!(!covers(&tri, 650, 440));
}

#[test]
fn single_triangle_renders_filled_region() {
    let mut ctx = RenderContext::new(80, 60, 0);
    ctx.configure(80, 60);
    let clear = Color::transparent_black();
    let white = Color {
        r_bits: f64::to_bits(1.0),
        g_bits: f64::to_bits(1.0),
        b_bits: f64::to_bits(1.0),
        a_bits: f64::to_bits(1.0),
    };
    let (x0, y0) = viewport_point(0, 500, 80, 60);
    let (x1, y1) = viewport_point(-500, -500, 80, 60);
    let (x2, y2) = viewport_point(500, -500, 80, 60);
    let tri = ScreenTriangle { x0, y0, x1, y1, x2, y2, color: white };
    let renderer = demo_renderer();
    let shown = renderer
        .render(&ctx, clear, &vec![tri], None)
        .expect("fault-free render");
    // The apex maps to pixel column 40, row 15; the base corners to
    // (20, 45) and (60, 45). The centroid region is filled, the screen
    // corners are not, and every filled pixel agrees with `covers`.
    assert_eq!(shown.pixel(40, 30), white);
    assert_eq!(shown.pixel(0, 0), clear);
    assert_eq!(shown.pixel(79, 59), clear);
    let mut filled: u32 = 0;
    for y in 0..60 {
        for x in 0..80 {
            let expect = if covers(&tri, x, y) { white } else { clear };
            assert_eq!(shown.pixel(x, y), expect);
            if shown.pixel(x, y) == white {
                filled += 1;
            }
        }
    }
    // A single filled triangle: about half of its 40 by 30 bounding box.
    assert!(filled > 400 && filled < 800);
}

#[test]
fn resize_mid_run_renders_at_new_size() {
    let mut ctx = RenderContext::new(800, 600, 0);
    let clear = Color::transparent_black();
    let renderer = demo_renderer();
    let first = renderer
        .render(&ctx, clear, &Vec::new(), None)
        .expect("fault-free render");
    assert_eq!((first.width(), first.height()), (800, 600));
    ctx.configure(1920, 1080);
    let second = renderer
        .render(&ctx, clear, &Vec::new(), None)
        .expect("fault-free render after resize");
    assert_eq!((second.width(), second.height()), (1920, 1080));
    assert_eq!(second.pixel(1919, 1079), clear);
}
