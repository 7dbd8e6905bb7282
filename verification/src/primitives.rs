//! Per-widget primitive selection: which draw primitives a widget's state and
//! style resolve to, the pairing of polyline points into stroked segments, and
//! the per-line rectangles of an already line-broken text.
//!
//! The primitives carry fully resolved parameters in virtual coordinates; the
//! rasterisation of a primitive list is left to the rendering backend.

use vstd::prelude::*;
use crate::geom::{COORD_MAX, Point, Rect};
use crate::graph::{LineInfo, Node, WidgetState};
use crate::theme::{Align, Cap, Color, LineStyle, Pattern, ShapeStyle, Theme};

verus! {

/// Fully resolved stroke parameters of a polyline.
#[derive(Clone, Copy, PartialEq, Eq, Structural, Debug)]
pub struct Stroke {
    pub pattern: Pattern,
    pub color: Color,
    pub thickness: i64,
    pub cap: Cap,
}

/// The stroke a line style resolves to under a theme.
pub open spec fn stroke_spec(style: LineStyle, theme: Theme) -> Stroke {
    Stroke {
        pattern: style.pattern_spec(),
        color: style.color_spec(theme),
        thickness: style.thickness_spec(),
        cap: style.cap_spec(),
    }
}

/// Resolve a line style's stroke parameters against the theme.
pub fn resolve_stroke(style: &LineStyle, theme: &Theme) -> (s: Stroke)
    ensures
        s == stroke_spec(*style, *theme),
{
    Stroke {
        pattern: style.get_pattern(theme),
        color: style.get_color(theme),
        thickness: style.get_thickness(theme),
        cap: style.get_cap(theme),
    }
}

/// One positioned line of a text widget: the byte range of the widget's
/// string it shows and the rectangle it occupies.
#[derive(Clone, Copy, PartialEq, Eq, Structural, Debug)]
pub struct TextLine {
    pub byte_start: usize,
    pub byte_end: usize,
    pub rect: Rect,
}

/// A piece of stroked polyline between two points.
#[derive(Clone, Copy, PartialEq, Eq, Structural, Debug)]
pub struct Segment {
    pub start: Point,
    pub end: Point,
}

/// A resolved draw primitive in virtual coordinates.
#[derive(Clone, PartialEq, Debug)]
pub enum Primitive {
    Rectangle { rect: Rect, color: Color },
    Lines { points: Vec<Point>, stroke: Stroke },
    PolygonFill { points: Vec<Point>, color: Color },
    OvalFill { rect: Rect, color: Color },
    OvalOutline { rect: Rect, stroke: Stroke },
    Text { color: Color, font_size: u32, lines: Vec<TextLine> },
    Image { src_rect: Rect, dest_rect: Rect, tint: Option<Color> },
}

/// The mathematical value of a [`Primitive`], with point and line lists as
/// sequences.
pub enum PrimitiveView {
    Rectangle { rect: Rect, color: Color },
    Lines { points: Seq<Point>, stroke: Stroke },
    PolygonFill { points: Seq<Point>, color: Color },
    OvalFill { rect: Rect, color: Color },
    OvalOutline { rect: Rect, stroke: Stroke },
    Text { color: Color, font_size: u32, lines: Seq<TextLine> },
    Image { src_rect: Rect, dest_rect: Rect, tint: Option<Color> },
}

impl View for Primitive {
    type V = PrimitiveView;

    open spec fn view(&self) -> PrimitiveView {
        match self {
            Primitive::Rectangle { rect, color } => PrimitiveView::Rectangle { rect: *rect, color: *color },
            Primitive::Lines { points, stroke } => PrimitiveView::Lines { points: points@, stroke: *stroke },
            Primitive::PolygonFill { points, color } => PrimitiveView::PolygonFill { points: points@, color: *color },
            Primitive::OvalFill { rect, color } => PrimitiveView::OvalFill { rect: *rect, color: *color },
            Primitive::OvalOutline { rect, stroke } => PrimitiveView::OvalOutline { rect: *rect, stroke: *stroke },
            Primitive::Text { color, font_size, lines } => PrimitiveView::Text { color: *color, font_size: *font_size, lines: lines@ },
            Primitive::Image { src_rect, dest_rect, tint } => PrimitiveView::Image { src_rect: *src_rect, dest_rect: *dest_rect, tint: *tint },
        }
    }
}

/// The values of a primitive list.
pub open spec fn prims_view(v: Seq<Primitive>) -> Seq<PrimitiveView> {
    v.map_values(|p: Primitive| p@)
}

/// The closed outline of a rectangle, as the corner loop used to stroke it.
pub open spec fn rect_outline_spec(r: Rect) -> Seq<Point> {
    seq![
        Point { x: r.l, y: r.b },
        Point { x: r.l, y: r.t },
        Point { x: r.r, y: r.t },
        Point { x: r.r, y: r.b },
        Point { x: r.l, y: r.b },
    ]
}

/// A point list with its first point appended again, closing the loop.
pub open spec fn closed_loop_spec(points: Seq<Point>) -> Seq<Point> {
    if points.len() == 0 {
        points
    } else {
        points.push(points[0])
    }
}

/// The rectangle of the `i`th text line: lines stack downward from the top
/// of the widget rectangle, each as tall as the font size, separated by the
/// line spacing; horizontally each line is placed by the alignment.
pub open spec fn text_line_spec(
    info: LineInfo,
    i: int,
    font_size: u32,
    rect: Rect,
    x_align: Align,
    spacing: i64,
) -> TextLine {
    let h = font_size as int;
    let t = rect.t - i * (h + spacing);
    let b = t - h;
    let l = match x_align {
        Align::Start => rect.l as int,
        Align::Middle => rect.l + (rect.width_spec() - info.width) / 2,
        Align::End => rect.r - info.width,
    };
    TextLine {
        byte_start: info.byte_start,
        byte_end: info.byte_end,
        rect: Rect { l: l as i64, r: (l + info.width) as i64, b: b as i64, t: t as i64 },
    }
}

/// The rectangles of every text line, in order.
pub open spec fn text_lines_spec(
    infos: Seq<LineInfo>,
    font_size: u32,
    rect: Rect,
    x_align: Align,
    spacing: i64,
) -> Seq<TextLine> {
    Seq::new(infos.len(), |i: int| text_line_spec(infos[i], i, font_size, rect, x_align, spacing))
}

/// Bounds under which the text line layout stays inside `i64` arithmetic.
pub open spec fn text_layout_ok(infos: Seq<LineInfo>, font_size: u32, spacing: i64) -> bool {
    &&& font_size <= 100000
    &&& 0 <= spacing <= COORD_MAX
    &&& infos.len() <= 10000
    &&& forall|i: int| 0 <= i < infos.len() ==> 0 <= (#[trigger] infos[i]).width <= COORD_MAX
}

proof fn lemma_mul_range(a: int, b: int, ca: int, cb: int)
    requires
        0 <= a <= ca,
        0 <= b <= cb,
    ensures
        0 <= a * b <= ca * cb,
{
    assert(0 <= a * b <= ca * cb) by (nonlinear_arith)
        requires
            0 <= a <= ca && 0 <= b <= cb,
    ;
}

/// Compute the rectangle of every line of an already line-broken text.
pub fn text_line_rects(
    infos: &Vec<LineInfo>,
    font_size: u32,
    rect: Rect,
    x_align: Align,
    spacing: i64,
) -> (res: Vec<TextLine>)
    requires
        rect.wf(),
        text_layout_ok(infos@, font_size, spacing),
    ensures
        res@ == text_lines_spec(infos@, font_size, rect, x_align, spacing),
{
    let mut res: Vec<TextLine> = Vec::new();
    let h: i64 = font_size as i64;
    let mut i: usize = 0;
    while i < infos.len()
        invariant
            rect.wf(),
            text_layout_ok(infos@, font_size, spacing),
            h == font_size as i64,
            i <= infos@.len(),
            res@ == text_lines_spec(infos@, font_size, rect, x_align, spacing).take(i as int),
        decreases infos@.len() - i,
    {
        let info = infos[i];
        proof {
            lemma_mul_range(i as int, h + spacing, 10000, 100000 + COORD_MAX as int);
        }
        let t: i64 = rect.t - (i as i64) * (h + spacing);
        let b: i64 = t - h;
        let l: i64 = match x_align {
            Align::Start => rect.l,
            Align::Middle => {
                let half = match (rect.w() - info.width).checked_div_euclid(2) {
                    Some(q) => q,
                    None => 0,
                };
                rect.l + half
            },
            Align::End => rect.r - info.width,
        };
        let line = TextLine { byte_start: info.byte_start, byte_end: info.byte_end, rect: Rect { l, r: l + info.width, b, t } };
        res.push(line);
        proof {
            assert(res@ =~= text_lines_spec(infos@, font_size, rect, x_align, spacing).take(
                i + 1,
            ));
        }
        i = i + 1;
    }
    proof {
        assert(text_lines_spec(infos@, font_size, rect, x_align, spacing).take(infos@.len() as int)
            =~= text_lines_spec(infos@, font_size, rect, x_align, spacing));
    }
    res
}

/// The consecutive segments of a polyline: one per adjacent pair of points.
pub open spec fn segments_spec(points: Seq<Point>) -> Seq<Segment> {
    if points.len() == 0 {
        Seq::empty()
    } else {
        Seq::new((points.len() - 1) as nat, |i: int| Segment { start: points[i], end: points[i + 1] })
    }
}

/// Pair the points of a solid polyline into drawable segments.
pub fn solid_line_segments(points: &Vec<Point>) -> (res: Vec<Segment>)
    ensures
        res@ == segments_spec(points@),
{
    let mut res: Vec<Segment> = Vec::new();
    if points.len() == 0 {
        return res;
    }
    let mut i: usize = 1;
    while i < points.len()
        invariant
            1 <= i <= points@.len(),
            res@ == segments_spec(points@).take(i - 1),
        decreases points@.len() - i,
    {
        res.push(Segment { start: points[i - 1], end: points[i] });
        proof {
            assert(res@ =~= segments_spec(points@).take(i as int));
        }
        i = i + 1;
    }
    proof {
        assert(segments_spec(points@).take(points@.len() - 1) =~= segments_spec(points@));
    }
    res
}

/// The primitives a widget resolves to under a theme.
///
/// A filled rectangle is one colored rectangle; an outlined one is its corner
/// loop stroked. A framed rectangle is the frame rectangle (when the frame
/// width is positive) under the padded inner rectangle. Ovals keep their
/// bounding rectangle for the backend to tessellate. Polygons fill their
/// point list or stroke its closed loop. A line strokes its two endpoints, a
/// point path its point list. Text becomes positioned line rectangles; an
/// image with a texture maps its source rectangle onto the widget rectangle.
/// Unrecognised kinds draw nothing.
pub open spec fn spec_primitives(node: Node, theme: Theme) -> Seq<PrimitiveView> {
    match node.state {
        WidgetState::Rectangle { style } => match style {
            ShapeStyle::Fill(_) => seq![
                PrimitiveView::Rectangle { rect: node.rect, color: style.color_spec(theme) },
            ],
            ShapeStyle::Outline(line) => seq![
                PrimitiveView::Lines {
                    points: rect_outline_spec(node.rect),
                    stroke: stroke_spec(line, theme),
                },
            ],
        },
        WidgetState::FramedRectangle { style } => {
            let frame = style.frame_spec(theme);
            let inner = PrimitiveView::Rectangle {
                rect: node.rect.pad_spec(frame as int),
                color: style.color_spec(theme),
            };
            if frame > 0 {
                seq![
                    PrimitiveView::Rectangle { rect: node.rect, color: style.frame_color_spec(theme) },
                    inner,
                ]
            } else {
                seq![inner]
            }
        },
        WidgetState::Oval { style } => match style {
            ShapeStyle::Fill(_) => seq![
                PrimitiveView::OvalFill { rect: node.rect, color: style.color_spec(theme) },
            ],
            ShapeStyle::Outline(line) => seq![
                PrimitiveView::OvalOutline { rect: node.rect, stroke: stroke_spec(line, theme) },
            ],
        },
        WidgetState::Polygon { points, style } => match style {
            ShapeStyle::Fill(_) => seq![
                PrimitiveView::PolygonFill { points: points@, color: style.color_spec(theme) },
            ],
            ShapeStyle::Outline(line) => seq![
                PrimitiveView::Lines {
                    points: closed_loop_spec(points@),
                    stroke: stroke_spec(line, theme),
                },
            ],
        },
        WidgetState::Line { start, end, style } => seq![
            PrimitiveView::Lines { points: seq![start, end], stroke: stroke_spec(style, theme) },
        ],
        WidgetState::PointPath { points, style } => seq![
            PrimitiveView::Lines { points: points@, stroke: stroke_spec(style, theme) },
        ],
        WidgetState::Text { string: _, line_infos, style } => seq![
            PrimitiveView::Text {
                color: style.color_spec(theme),
                font_size: style.font_size_spec(theme),
                lines: text_lines_spec(
                    line_infos@,
                    style.font_size_spec(theme),
                    node.rect,
                    style.text_align_spec(),
                    style.line_spacing_spec(),
                ),
            },
        ],
        WidgetState::Image { texture, style } => match texture {
            Some(tex) => seq![
                PrimitiveView::Image {
                    src_rect: tex.src_rect,
                    dest_rect: node.rect,
                    tint: style.tint_spec(),
                },
            ],
            None => Seq::empty(),
        },
        WidgetState::Other => Seq::empty(),
    }
}

/// Bounds under which a node's primitives stay inside `i64` arithmetic.
pub open spec fn drawable(node: Node, theme: Theme) -> bool {
    &&& node.rect.wf()
    &&& match node.state {
        WidgetState::FramedRectangle { style } => -COORD_MAX <= style.frame_spec(theme)
            <= COORD_MAX,
        WidgetState::Text { string: _, line_infos, style } => text_layout_ok(
            line_infos@,
            style.font_size_spec(theme),
            style.line_spacing_spec(),
        ),
        _ => true,
    }
}

/// Resolve a widget into the list of primitives that draw it.
pub fn primitives_of(node: &Node, theme: &Theme) -> (res: Vec<Primitive>)
    requires
        drawable(*node, *theme),
    ensures
        prims_view(res@) == spec_primitives(*node, *theme),
{
    let mut res: Vec<Primitive> = Vec::new();
    match &node.state {
        WidgetState::Rectangle { style } => match style {
            ShapeStyle::Fill(_) => {
                res.push(Primitive::Rectangle { rect: node.rect, color: style.get_color(theme) });
            },
            ShapeStyle::Outline(line) => {
                let r = node.rect;
                let points: Vec<Point> = vec![
                    Point { x: r.l, y: r.b },
                    Point { x: r.l, y: r.t },
                    Point { x: r.r, y: r.t },
                    Point { x: r.r, y: r.b },
                    Point { x: r.l, y: r.b },
                ];
                proof {
                    assert(points@ =~= rect_outline_spec(node.rect));
                }
                res.push(Primitive::Lines { points, stroke: resolve_stroke(line, theme) });
            },
        },
        WidgetState::FramedRectangle { style } => {
            let frame = style.frame(theme);
            if frame > 0 {
                res.push(Primitive::Rectangle { rect: node.rect, color: style.frame_color(theme) });
            }
            res.push(Primitive::Rectangle { rect: node.rect.pad(frame), color: style.color(theme) });
        },
        WidgetState::Oval { style } => match style {
            ShapeStyle::Fill(_) => {
                res.push(Primitive::OvalFill { rect: node.rect, color: style.get_color(theme) });
            },
            ShapeStyle::Outline(line) => {
                res.push(Primitive::OvalOutline { rect: node.rect, stroke: resolve_stroke(line, theme) });
            },
        },
        WidgetState::Polygon { points, style } => match style {
            ShapeStyle::Fill(_) => {
                res.push(Primitive::PolygonFill { points: points.clone(), color: style.get_color(theme) });
            },
            ShapeStyle::Outline(line) => {
                let mut loop_points: Vec<Point> = points.clone();
                if loop_points.len() > 0 {
                    let first = loop_points[0];
                    loop_points.push(first);
                }
                proof {
                    assert(loop_points@ =~= closed_loop_spec(points@));
                }
                res.push(Primitive::Lines { points: loop_points, stroke: resolve_stroke(line, theme) });
            },
        },
        WidgetState::Line { start, end, style } => {
            let points: Vec<Point> = vec![*start, *end];
            proof {
                assert(points@ =~= seq![*start, *end]);
            }
            res.push(Primitive::Lines { points, stroke: resolve_stroke(style, theme) });
        },
        WidgetState::PointPath { points, style } => {
            res.push(Primitive::Lines { points: points.clone(), stroke: resolve_stroke(style, theme) });
        },
        WidgetState::Text { string: _, line_infos, style } => {
            let font_size = style.font_size(theme);
            let lines = text_line_rects(
                line_infos,
                font_size,
                node.rect,
                style.text_align(theme),
                style.line_spacing(theme),
            );
            res.push(Primitive::Text { color: style.color(theme), font_size, lines });
        },
        WidgetState::Image { texture, style } => match texture {
            Some(tex) => {
                res.push(Primitive::Image {
                    src_rect: tex.src_rect,
                    dest_rect: node.rect,
                    tint: style.tint(),
                });
            },
            None => {},
        },
        WidgetState::Other => {},
    }
    proof {
        assert(prims_view(res@) =~~= spec_primitives(*node, *theme));
    }
    res
}

} // verus!
