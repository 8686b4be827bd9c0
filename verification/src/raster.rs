//! The pixel-level effect of the draw calls: the viewport transform from
//! normalized device coordinates to screen space, pixel coverage by a
//! triangle, and the painting of a whole render pass onto a frame.

use vstd::prelude::*;
use crate::Color;
use crate::frame::Frame;

verus! {

/// The largest screen-space coordinate magnitude the rasterizer accepts;
/// it keeps every edge-function product inside a 128-bit integer.
pub const COORD_BOUND: i64 = 0x2000_0000_0000_0000;

/// Screen-space coordinates are held in two-thousandths of a pixel, so
/// the viewport transform of thousandth-based device coordinates stays
/// exact; `SUBPIXELS` of them span one pixel.
pub const SUBPIXELS: i64 = 2000;

/// One triangle in screen space, each coordinate in two-thousandths of a
/// pixel, with the one color its fragments write.
#[derive(Clone, Copy, PartialEq, Eq, Structural, Debug)]
pub struct ScreenTriangle {
    pub x0: i64,
    pub y0: i64,
    pub x1: i64,
    pub y1: i64,
    pub x2: i64,
    pub y2: i64,
    pub color: Color,
}

impl ScreenTriangle {
    /// All six coordinates are small enough for exact edge functions.
    pub open spec fn wf(self) -> bool {
        &&& -COORD_BOUND <= self.x0 <= COORD_BOUND
        &&& -COORD_BOUND <= self.y0 <= COORD_BOUND
        &&& -COORD_BOUND <= self.x1 <= COORD_BOUND
        &&& -COORD_BOUND <= self.y1 <= COORD_BOUND
        &&& -COORD_BOUND <= self.x2 <= COORD_BOUND
        &&& -COORD_BOUND <= self.y2 <= COORD_BOUND
    }
}

/// The screen-space position of the center of pixel `p` along one axis.
pub open spec fn spec_center(p: int) -> int {
    SUBPIXELS * p + SUBPIXELS / 2
}

/// Twice the signed area of the triangle `a`, `b`, `p`: positive when
/// `p` lies to the left of the directed edge from `a` to `b`.
pub open spec fn spec_orient(ax: int, ay: int, bx: int, by: int, px: int, py: int) -> int {
    (bx - ax) * (py - ay) - (by - ay) * (px - ax)
}

/// The point `(cx, cy)` lies inside the triangle or on its boundary:
/// the three edge functions do not disagree in sign.
pub open spec fn spec_covers(t: ScreenTriangle, cx: int, cy: int) -> bool {
    let w0 = spec_orient(t.x1 as int, t.y1 as int, t.x2 as int, t.y2 as int, cx, cy);
    let w1 = spec_orient(t.x2 as int, t.y2 as int, t.x0 as int, t.y0 as int, cx, cy);
    let w2 = spec_orient(t.x0 as int, t.y0 as int, t.x1 as int, t.y1 as int, cx, cy);
    (w0 >= 0 && w1 >= 0 && w2 >= 0) || (w0 <= 0 && w1 <= 0 && w2 <= 0)
}

proof fn lemma_mul_bound(a: int, b: int, ma: int, mb: int)
    requires
        0 <= ma,
        0 <= mb,
        -ma <= a <= ma,
        -mb <= b <= mb,
    ensures
        -(ma * mb) <= a * b <= ma * mb,
{
    assert(-(ma * mb) <= a * b <= ma * mb) by (nonlinear_arith)
        requires
            0 <= ma,
            0 <= mb,
            -ma <= a <= ma,
            -mb <= b <= mb,
    ;
}

/// Maps one vertex position from normalized device coordinates (in
/// thousandths) to screen space (in two-thousandths of a pixel) on a
/// surface of the given size: x runs left to right onto `[0, width]`,
/// y is flipped and runs top to bottom onto `[0, height]`.
pub fn viewport_point(x_milli: i32, y_milli: i32, width: u32, height: u32) -> (p: (i64, i64))
    requires
        -1_000_000 <= x_milli <= 1_000_000,
        -1_000_000 <= y_milli <= 1_000_000,
    ensures
        p.0 == (x_milli + 1000) * width,
        p.1 == (1000 - y_milli) * height,
        -COORD_BOUND <= p.0 <= COORD_BOUND,
        -COORD_BOUND <= p.1 <= COORD_BOUND,
{
    proof {
        lemma_mul_bound(x_milli + 1000, width as int, 1_001_000, 0xffff_ffff);
        lemma_mul_bound(1000 - y_milli, height as int, 1_001_000, 0xffff_ffff);
    }
    let sx: i64 = ((x_milli as i64) + 1000) * (width as i64);
    let sy: i64 = (1000 - (y_milli as i64)) * (height as i64);
    (sx, sy)
}

fn orient(ax: i64, ay: i64, bx: i64, by: i64, px: i64, py: i64) -> (w: i128)
    requires
        -COORD_BOUND <= ax <= COORD_BOUND,
        -COORD_BOUND <= ay <= COORD_BOUND,
        -COORD_BOUND <= bx <= COORD_BOUND,
        -COORD_BOUND <= by <= COORD_BOUND,
        -COORD_BOUND <= px <= COORD_BOUND,
        -COORD_BOUND <= py <= COORD_BOUND,
    ensures
        w == spec_orient(ax as int, ay as int, bx as int, by as int, px as int, py as int),
{
    let abx: i128 = (bx as i128) - (ax as i128);
    let aby: i128 = (by as i128) - (ay as i128);
    let apx: i128 = (px as i128) - (ax as i128);
    let apy: i128 = (py as i128) - (ay as i128);
    proof {
        lemma_mul_bound(abx as int, apy as int, 2 * COORD_BOUND, 2 * COORD_BOUND);
        lemma_mul_bound(aby as int, apx as int, 2 * COORD_BOUND, 2 * COORD_BOUND);
    }
    abx * apy - aby * apx
}

/// Decides whether the center of the pixel in column `px` of row `py`
/// is covered by the triangle.
pub fn covers(t: &ScreenTriangle, px: u32, py: u32) -> (r: bool)
    requires
        t.wf(),
    ensures
        r == spec_covers(*t, spec_center(px as int), spec_center(py as int)),
{
    let cx: i64 = SUBPIXELS * (px as i64) + SUBPIXELS / 2;
    let cy: i64 = SUBPIXELS * (py as i64) + SUBPIXELS / 2;
    let w0 = orient(t.x1, t.y1, t.x2, t.y2, cx, cy);
    let w1 = orient(t.x2, t.y2, t.x0, t.y0, cx, cy);
    let w2 = orient(t.x0, t.y0, t.x1, t.y1, cx, cy);
    (w0 >= 0 && w1 >= 0 && w2 >= 0) || (w0 <= 0 && w1 <= 0 && w2 <= 0)
}

/// The color the pixel in column `x` of row `y` holds after the
/// triangle is drawn over frame `f`.
pub open spec fn spec_paint(f: Frame, t: ScreenTriangle, x: int, y: int) -> Color {
    if spec_covers(t, spec_center(x), spec_center(y)) {
        t.color
    } else {
        f.spec_pixel(x, y)
    }
}

/// Draws one triangle onto the frame: every pixel whose center the
/// triangle covers takes the triangle's color, every other pixel keeps
/// its color.
pub fn rasterize_triangle(frame: &mut Frame, t: &ScreenTriangle)
    requires
        old(frame).wf(),
        t.wf(),
    ensures
        final(frame).wf(),
        final(frame).spec_width() == old(frame).spec_width(),
        final(frame).spec_height() == old(frame).spec_height(),
        forall|x: int, y: int|
            0 <= x < old(frame).spec_width() && 0 <= y < old(frame).spec_height()
                ==> final(frame).spec_pixel(x, y) == spec_paint(*old(frame), *t, x, y),
{
    let w: u32 = frame.width();
    let h: u32 = frame.height();
    let mut y: u32 = 0;
    while y < h
        invariant
            y <= h,
            t.wf(),
            frame.wf(),
            w == old(frame).spec_width(),
            h == old(frame).spec_height(),
            frame.spec_width() == w,
            frame.spec_height() == h,
            forall|i: int, j: int|
                0 <= i < w && 0 <= j < h ==> frame.spec_pixel(i, j) == (if j < y {
                    spec_paint(*old(frame), *t, i, j)
                } else {
                    old(frame).spec_pixel(i, j)
                }),
        decreases h - y,
    {
        let mut x: u32 = 0;
        while x < w
            invariant
                x <= w,
                y < h,
                t.wf(),
                frame.wf(),
                w == old(frame).spec_width(),
                h == old(frame).spec_height(),
                frame.spec_width() == w,
                frame.spec_height() == h,
                forall|i: int, j: int|
                    0 <= i < w && 0 <= j < h ==> frame.spec_pixel(i, j) == (if j < y || (j == y && i
                        < x) {
                        spec_paint(*old(frame), *t, i, j)
                    } else {
                        old(frame).spec_pixel(i, j)
                    }),
            decreases w - x,
        {
            if covers(t, x, y) {
                frame.set_pixel(x, y, t.color);
            }
            x = x + 1;
        }
        y = y + 1;
    }
}

/// The color the pixel in column `x` of row `y` holds after a pass that
/// clears to `base` and then draws the triangles in order, later
/// triangles painting over earlier ones.
pub open spec fn spec_shade(tris: Seq<ScreenTriangle>, x: int, y: int, base: Color) -> Color
    decreases tris.len(),
{
    if tris.len() == 0 {
        base
    } else if spec_covers(tris.last(), spec_center(x), spec_center(y)) {
        tris.last().color
    } else {
        spec_shade(tris.drop_last(), x, y, base)
    }
}

/// Runs one render pass against a frame: clears every pixel to the
/// clear color, then draws the given screen triangles in order.
pub fn run_pass(frame: &mut Frame, clear_color: Color, triangles: &Vec<ScreenTriangle>)
    requires
        old(frame).wf(),
        forall|k: int| 0 <= k < triangles@.len() ==> (#[trigger] triangles@[k]).wf(),
    ensures
        final(frame).wf(),
        final(frame).spec_width() == old(frame).spec_width(),
        final(frame).spec_height() == old(frame).spec_height(),
        forall|x: int, y: int|
            0 <= x < old(frame).spec_width() && 0 <= y < old(frame).spec_height()
                ==> final(frame).spec_pixel(x, y) == spec_shade(triangles@, x, y, clear_color),
{
    let w = frame.width();
    let h = frame.height();
    frame.clear(clear_color);
    let mut k: usize = 0;
    while k < triangles.len()
        invariant
            k <= triangles@.len(),
            frame.wf(),
            w == old(frame).spec_width(),
            h == old(frame).spec_height(),
            frame.spec_width() == w,
            frame.spec_height() == h,
            forall|i: int| 0 <= i < triangles@.len() ==> (#[trigger] triangles@[i]).wf(),
            forall|x: int, y: int|
                0 <= x < w && 0 <= y < h ==> frame.spec_pixel(x, y) == spec_shade(
                    triangles@.take(k as int),
                    x,
                    y,
                    clear_color,
                ),
        decreases triangles@.len() - k,
    {
        let t = triangles[k];
        rasterize_triangle(frame, &t);
        proof {
            let taken = triangles@.take(k as int + 1);
            assert(taken.drop_last() =~= triangles@.take(k as int));
            assert(taken.last() == triangles@[k as int]);
        }
        k = k + 1;
    }
    proof {
        assert(triangles@.take(triangles@.len() as int) =~= triangles@);
    }
}

/// A pass that draws no primitive shows exactly the clear color: a
/// frame whose pixels shade an empty triangle list over clear color `c`
/// is uniformly `c`.
pub proof fn lemma_empty_pass_uniform(f: Frame, triangles: Seq<ScreenTriangle>, c: Color)
    requires
        triangles.len() == 0,
        forall|x: int, y: int|
            0 <= x < f.spec_width() && 0 <= y < f.spec_height() ==> f.spec_pixel(x, y)
                == spec_shade(triangles, x, y, c),
    ensures
        f.uniform(c),
{
}

} // verus!
