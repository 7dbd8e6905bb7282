//! Clip region compositing: converting a widget rectangle in virtual view
//! coordinates into a device-space scissor rectangle and intersecting it with
//! any scissor already in force.
//!
//! View space has its origin at the window centre with y up; device space has
//! its origin at the top-left corner with unsigned pixel units. Device
//! coordinates that fall below zero are clamped to zero with the lost amount
//! taken off the width or height; coordinates past the `u32` range saturate.

use vstd::prelude::*;
use crate::geom::{COORD_MAX, Rect, map_range, map_range_spec};

verus! {

/// A device-space scissor rectangle: drawing outside it is suppressed.
#[derive(Clone, Copy, PartialEq, Eq, Structural, Debug)]
pub struct Scissor {
    pub x: u32,
    pub y: u32,
    pub w: u32,
    pub h: u32,
}

/// A render context: the virtual view size, the optional device viewport size
/// in pixels (absent means device size equals view size), and the scissor
/// currently in force, if any.
/// The device pixel size of the draw target.
#[derive(Clone, Copy, PartialEq, Eq, Structural, Debug)]
pub struct DrawSize {
    pub w: i64,
    pub h: i64,
}

#[derive(Clone, Copy, PartialEq, Eq, Structural, Debug)]
pub struct Context {
    pub view_w: i64,
    pub view_h: i64,
    pub viewport: Option<DrawSize>,
    pub scissor: Option<Scissor>,
}

impl Context {
    pub open spec fn wf(self) -> bool {
        &&& 1 <= self.view_w <= COORD_MAX
        &&& 1 <= self.view_h <= COORD_MAX
        &&& match self.viewport {
            Some(d) => 0 <= d.w <= COORD_MAX && 0 <= d.h <= COORD_MAX,
            None => true,
        }
    }

    /// Device draw width in pixels.
    pub open spec fn draw_w_spec(self) -> int {
        match self.viewport {
            Some(d) => d.w as int,
            None => self.view_w as int,
        }
    }

    /// Device draw height in pixels.
    pub open spec fn draw_h_spec(self) -> int {
        match self.viewport {
            Some(d) => d.h as int,
            None => self.view_h as int,
        }
    }

    /// The left edge of the view, measured from the centre.
    pub open spec fn view_left(self) -> int {
        -(self.view_w as int / 2)
    }

    /// The bottom edge of the view, measured from the centre.
    pub open spec fn view_bottom(self) -> int {
        -(self.view_h as int / 2)
    }
}

/// Intersection of two device scissors. When the rectangles do not overlap the
/// result keeps `a`'s corner with zero width and height, hiding everything.
/// Rectangles that merely touch intersect in a zero-area scissor.
pub open spec fn scissor_intersect_spec(a: Scissor, b: Scissor) -> Scissor {
    if a.x + a.w < b.x || b.x + b.w < a.x || a.y + a.h < b.y || b.y + b.h < a.y {
        Scissor { x: a.x, y: a.y, w: 0, h: 0 }
    } else {
        let l = if a.x > b.x { a.x as int } else { b.x as int };
        let r = if a.x + a.w < b.x + b.w { a.x + a.w } else { b.x + b.w };
        let d = if a.y > b.y { a.y as int } else { b.y as int };
        let u = if a.y + a.h < b.y + b.h { a.y + a.h } else { b.y + b.h };
        Scissor { x: l as u32, y: d as u32, w: (r - l) as u32, h: (u - d) as u32 }
    }
}

/// Executable scissor intersection matching [`scissor_intersect_spec`].
pub fn scissor_intersect(a: Scissor, b: Scissor) -> (res: Scissor)
    ensures
        res == scissor_intersect_spec(a, b),
{
    let a_r: u64 = a.x as u64 + a.w as u64;
    let b_r: u64 = b.x as u64 + b.w as u64;
    let a_t: u64 = a.y as u64 + a.h as u64;
    let b_t: u64 = b.y as u64 + b.h as u64;
    if a_r < b.x as u64 || b_r < a.x as u64 || a_t < b.y as u64 || b_t < a.y as u64 {
        Scissor { x: a.x, y: a.y, w: 0, h: 0 }
    } else {
        let l: u64 = if a.x > b.x { a.x as u64 } else { b.x as u64 };
        let r: u64 = if a_r < b_r { a_r } else { b_r };
        let d: u64 = if a.y > b.y { a.y as u64 } else { b.y as u64 };
        let u: u64 = if a_t < b_t { a_t } else { b_t };
        Scissor { x: l as u32, y: d as u32, w: (r - l) as u32, h: (u - d) as u32 }
    }
}

/// Unclamped device x coordinate of a view rectangle's left edge.
pub open spec fn mapped_x_spec(ctx: Context, rect: Rect) -> int {
    map_range_spec(rect.l as int, ctx.view_left(), ctx.view_left() + ctx.view_w, 0, ctx.draw_w_spec())
}

/// Unclamped device y coordinate of a view rectangle's bottom edge.
pub open spec fn mapped_y_spec(ctx: Context, rect: Rect) -> int {
    map_range_spec(rect.b as int, ctx.view_bottom(), ctx.view_bottom() + ctx.view_h, 0, ctx.draw_h_spec())
}

/// Unclamped device width of a view rectangle.
pub open spec fn mapped_w_spec(ctx: Context, rect: Rect) -> int {
    rect.width_spec() * ctx.draw_w_spec() / (ctx.view_w as int)
}

/// Unclamped device height of a view rectangle.
pub open spec fn mapped_h_spec(ctx: Context, rect: Rect) -> int {
    rect.height_spec() * ctx.draw_h_spec() / (ctx.view_h as int)
}

/// Clamp an already nonnegative device value into the `u32` range.
pub open spec fn sat_u32(v: int) -> int {
    if v > 0xFFFF_FFFF {
        0xFFFF_FFFF
    } else {
        v
    }
}

/// The device scissor a view rectangle maps to, before any intersection with
/// a previously active scissor: negative corners are clamped to zero with the
/// clamped amount taken off the dimensions, which never go below zero.
pub open spec fn device_scissor_spec(ctx: Context, rect: Rect) -> Scissor {
    let mx = mapped_x_spec(ctx, rect);
    let my = mapped_y_spec(ctx, rect);
    let x_neg: int = if mx < 0 { mx } else { 0 };
    let y_neg: int = if my < 0 { my } else { 0 };
    let x0: int = if mx < 0 { 0 } else { mx };
    let y0: int = if my < 0 { 0 } else { my };
    let w0 = mapped_w_spec(ctx, rect) + x_neg;
    let h0 = mapped_h_spec(ctx, rect) + y_neg;
    let w1: int = if w0 < 0 { 0 } else { w0 };
    let h1: int = if h0 < 0 { 0 } else { h0 };
    Scissor {
        x: sat_u32(x0) as u32,
        y: sat_u32(y0) as u32,
        w: sat_u32(w1) as u32,
        h: sat_u32(h1) as u32,
    }
}

/// The scissor of the context produced by cropping `ctx` to `rect`.
pub open spec fn crop_scissor_spec(ctx: Context, rect: Rect) -> Scissor {
    match ctx.scissor {
        None => device_scissor_spec(ctx, rect),
        Some(s0) => scissor_intersect_spec(device_scissor_spec(ctx, rect), s0),
    }
}

/// The context produced by cropping `ctx` to `rect`: same view and viewport,
/// scissor replaced.
pub open spec fn crop_context_spec(ctx: Context, rect: Rect) -> Context {
    Context {
        view_w: ctx.view_w,
        view_h: ctx.view_h,
        viewport: ctx.viewport,
        scissor: Some(crop_scissor_spec(ctx, rect)),
    }
}

proof fn lemma_mul_div_bounds(a: int, b: int, d: int, ca: int, cb: int)
    requires
        0 <= a <= ca,
        0 <= b <= cb,
        1 <= d,
    ensures
        0 <= a * b <= ca * cb,
        0 <= a * b / d <= a * b,
{
    assert(0 <= a * b <= ca * cb) by (nonlinear_arith)
        requires
            0 <= a <= ca && 0 <= b <= cb,
    ;
    assert(0 <= a * b / d <= a * b) by (nonlinear_arith)
        requires
            0 <= a * b && 1 <= d,
    ;
}

/// Map a view rectangle into the device scissor it induces, independent of
/// any active scissor.
pub fn view_rect_to_device(ctx: &Context, rect: Rect) -> (res: Scissor)
    requires
        ctx.wf(),
        rect.wf(),
    ensures
        res == device_scissor_spec(*ctx, rect),
{
    let half_w: i64 = ctx.view_w / 2;
    let half_h: i64 = ctx.view_h / 2;
    let (draw_w, draw_h): (i64, i64) = match ctx.viewport {
        Some(d) => (d.w, d.h),
        None => (ctx.view_w, ctx.view_h),
    };
    let mx: i64 = map_range(rect.l, -half_w, -half_w + ctx.view_w, 0, draw_w);
    let my: i64 = map_range(rect.b, -half_h, -half_h + ctx.view_h, 0, draw_h);
    proof {
        lemma_mul_div_bounds(rect.width_spec(), draw_w as int, ctx.view_w as int, 2 * COORD_MAX as int, COORD_MAX as int);
        lemma_mul_div_bounds(rect.height_spec(), draw_h as int, ctx.view_h as int, 2 * COORD_MAX as int, COORD_MAX as int);
    }
    let mw: i64 = ((rect.w() as u64 * draw_w as u64) / ctx.view_w as u64) as i64;
    let mh: i64 = ((rect.h() as u64 * draw_h as u64) / ctx.view_h as u64) as i64;
    let x_neg: i64 = if mx < 0 { mx } else { 0 };
    let y_neg: i64 = if my < 0 { my } else { 0 };
    let x0: i64 = if mx < 0 { 0 } else { mx };
    let y0: i64 = if my < 0 { 0 } else { my };
    let w0: i64 = mw + x_neg;
    let h0: i64 = mh + y_neg;
    let w1: i64 = if w0 < 0 { 0 } else { w0 };
    let h1: i64 = if h0 < 0 { 0 } else { h0 };
    let lim: i64 = 0xFFFF_FFFF;
    Scissor {
        x: (if x0 > lim { lim } else { x0 }) as u32,
        y: (if y0 > lim { lim } else { y0 }) as u32,
        w: (if w1 > lim { lim } else { w1 }) as u32,
        h: (if h1 > lim { lim } else { h1 }) as u32,
    }
}

/// Crop the context to the given view rectangle: the new scissor is the
/// device image of `rect`, intersected with the previously active scissor
/// when there is one.
pub fn crop_context(ctx: &Context, rect: Rect) -> (res: Context)
    requires
        ctx.wf(),
        rect.wf(),
    ensures
        res == crop_context_spec(*ctx, rect),
        res.wf(),
{
    let target = view_rect_to_device(ctx, rect);
    let scissor = match ctx.scissor {
        None => target,
        Some(s0) => scissor_intersect(target, s0),
    };
    Context {
        view_w: ctx.view_w,
        view_h: ctx.view_h,
        viewport: ctx.viewport,
        scissor: Some(scissor),
    }
}

/// Map a device scissor back to the view rectangle whose edges it covers.
/// This is the inverse of [`view_rect_to_device`] when the device size equals
/// the view size and no clamping occurred.
pub open spec fn device_to_view_spec(ctx: Context, s: Scissor) -> Rect {
    Rect {
        l: (s.x + ctx.view_left()) as i64,
        r: (s.x + s.w + ctx.view_left()) as i64,
        b: (s.y + ctx.view_bottom()) as i64,
        t: (s.y + s.h + ctx.view_bottom()) as i64,
    }
}

/// Executable inverse mapping matching [`device_to_view_spec`].
pub fn device_to_view(ctx: &Context, s: Scissor) -> (res: Rect)
    requires
        ctx.wf(),
        s.x + s.w <= 2 * COORD_MAX,
        s.y + s.h <= 2 * COORD_MAX,
    ensures
        res == device_to_view_spec(*ctx, s),
{
    let half_w: i64 = ctx.view_w / 2;
    let half_h: i64 = ctx.view_h / 2;
    Rect {
        l: s.x as i64 - half_w,
        r: s.x as i64 + s.w as i64 - half_w,
        b: s.y as i64 - half_h,
        t: s.y as i64 + s.h as i64 - half_h,
    }
}

/// Intersecting a scissor with itself gives back the same scissor.
pub proof fn lemma_scissor_intersect_self(s: Scissor)
    ensures
        scissor_intersect_spec(s, s) == s,
{
}

/// Cropping twice to the same rectangle changes nothing after the first crop:
/// the rectangle's device image intersected with itself is itself.
pub proof fn lemma_crop_idempotent(ctx: Context, rect: Rect)
    requires
        ctx.wf(),
    ensures
        crop_context_spec(crop_context_spec(ctx, rect), rect) == crop_context_spec(ctx, rect),
{
    let once = crop_context_spec(ctx, rect);
    assert(device_scissor_spec(once, rect) == device_scissor_spec(ctx, rect));
    lemma_scissor_intersect_self(device_scissor_spec(ctx, rect));
}

/// A crop rectangle whose device image lies entirely outside the active
/// scissor yields a zero-width, zero-height scissor.
pub proof fn lemma_crop_outside_is_empty(ctx: Context, rect: Rect, s0: Scissor)
    requires
        ctx.scissor == Some(s0),
        ({
            let m = device_scissor_spec(ctx, rect);
            m.x + m.w < s0.x || s0.x + s0.w < m.x || m.y + m.h < s0.y || s0.y + s0.h < m.y
        }),
    ensures
        crop_scissor_spec(ctx, rect).w == 0,
        crop_scissor_spec(ctx, rect).h == 0,
{
}

/// With the device size equal to the view size, no active scissor, and the
/// rectangle inside the window, converting a view rectangle to a device
/// scissor and back reproduces the rectangle exactly.
pub proof fn lemma_device_round_trip(ctx: Context, rect: Rect)
    requires
        ctx.wf(),
        rect.wf(),
        ctx.viewport matches Some(d) ==> d.w == ctx.view_w && d.h == ctx.view_h,
        ctx.view_left() <= rect.l,
        rect.r <= ctx.view_left() + ctx.view_w,
        ctx.view_bottom() <= rect.b,
        rect.t <= ctx.view_bottom() + ctx.view_h,
    ensures
        device_to_view_spec(ctx, device_scissor_spec(ctx, rect)) == rect,
{
    let vw = ctx.view_w as int;
    let vh = ctx.view_h as int;
    let left = ctx.view_left();
    let bottom = ctx.view_bottom();
    assert((rect.l - left) * vw / vw == rect.l - left) by (nonlinear_arith)
        requires
            vw >= 1,
    ;
    assert((rect.b - bottom) * vh / vh == rect.b - bottom) by (nonlinear_arith)
        requires
            vh >= 1,
    ;
    assert((rect.r - rect.l) * vw / vw == rect.r - rect.l) by (nonlinear_arith)
        requires
            vw >= 1,
    ;
    assert((rect.t - rect.b) * vh / vh == rect.t - rect.b) by (nonlinear_arith)
        requires
            vh >= 1,
    ;
    assert(mapped_x_spec(ctx, rect) == rect.l - left);
    assert(mapped_y_spec(ctx, rect) == rect.b - bottom);
    assert(mapped_w_spec(ctx, rect) == rect.r - rect.l);
    assert(mapped_h_spec(ctx, rect) == rect.t - rect.b);
}

} // verus!
