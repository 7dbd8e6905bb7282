//! A pad for displaying and controlling a 2D point on a cartesian plane
//! within a given range: the value-update, crosshair-placement and
//! label-placement rules of the widget.
//!
//! Building the pad's child widgets into the graph is the surrounding
//! layer's task; this module computes every value those children are built
//! from.

use vstd::prelude::*;
use crate::geom::{Rect, clamp_spec, clamp_value, map_range, map_range_spec};
use crate::input::widget::Mouse;
use crate::input::ButtonPosition;
use crate::theme::{Color, Theme, resolve, resolve_spec};

verus! {

/// Unique kind discriminator of the widget type.
pub const KIND: &'static str = "XYPad";

/// Distance between a crosshair line and its value label.
pub const VALUE_TEXT_PAD: i64 = 5;

/// An end of a one-dimensional range.
#[derive(Clone, Copy, PartialEq, Eq, Structural, Debug)]
pub enum Edge {
    Start,
    End,
}

/// Which way the value label extends from the crosshair.
#[derive(Clone, Copy, PartialEq, Eq, Structural, Debug)]
pub enum Direction {
    Forwards,
    Backwards,
}

/// The edge of `lo..=hi` closest to `v`; ties go to the end.
pub open spec fn closest_edge_spec(lo: int, hi: int, v: int) -> Edge {
    if v - lo < hi - v {
        Edge::Start
    } else {
        Edge::End
    }
}

/// Which edge of the range `lo..=hi` lies closest to `v`.
pub fn closest_edge(lo: i64, hi: i64, v: i64) -> (e: Edge)
    requires
        -0x2000_0000_0000_0000 <= lo <= v <= hi <= 0x2000_0000_0000_0000,
    ensures
        e == closest_edge_spec(lo as int, hi as int, v as int),
{
    if v - lo < hi - v {
        Edge::Start
    } else {
        Edge::End
    }
}

/// The label extends forwards from a crosshair near the start of the range
/// and backwards from one near the end.
pub open spec fn label_direction_spec(e: Edge) -> Direction {
    match e {
        Edge::Start => Direction::Forwards,
        Edge::End => Direction::Backwards,
    }
}

/// The direction a value label extends in, given the closest edge.
pub fn label_direction(e: Edge) -> (d: Direction)
    ensures
        d == label_direction_spec(e),
{
    match e {
        Edge::Start => Direction::Forwards,
        Edge::End => Direction::Backwards,
    }
}

/// Graphical styling of the pad, each attribute optionally overridden.
#[derive(Clone, Copy, PartialEq, Eq, Structural, Debug)]
pub struct Style {
    pub maybe_color: Option<Color>,
    pub maybe_frame: Option<i64>,
    pub maybe_frame_color: Option<Color>,
    pub maybe_label_color: Option<Color>,
    pub maybe_label_font_size: Option<u32>,
    pub maybe_value_font_size: Option<u32>,
    pub maybe_line_thickness: Option<i64>,
}

impl Style {
    /// A style with no attribute overridden.
    pub fn new() -> (s: Style)
        ensures
            s == (Style {
                maybe_color: None,
                maybe_frame: None,
                maybe_frame_color: None,
                maybe_label_color: None,
                maybe_label_font_size: None,
                maybe_value_font_size: None,
                maybe_line_thickness: None,
            }),
    {
        Style {
            maybe_color: None,
            maybe_frame: None,
            maybe_frame_color: None,
            maybe_label_color: None,
            maybe_label_font_size: None,
            maybe_value_font_size: None,
            maybe_line_thickness: None,
        }
    }

    pub fn color(&self, theme: &Theme) -> (c: Color)
        ensures
            c == resolve_spec(self.maybe_color, theme.shape_color),
    {
        resolve(self.maybe_color, theme.shape_color)
    }

    pub fn frame(&self, theme: &Theme) -> (f: i64)
        ensures
            f == resolve_spec(self.maybe_frame, theme.frame_width),
    {
        resolve(self.maybe_frame, theme.frame_width)
    }

    pub fn frame_color(&self, theme: &Theme) -> (c: Color)
        ensures
            c == resolve_spec(self.maybe_frame_color, theme.frame_color),
    {
        resolve(self.maybe_frame_color, theme.frame_color)
    }

    pub fn label_color(&self, theme: &Theme) -> (c: Color)
        ensures
            c == resolve_spec(self.maybe_label_color, theme.label_color),
    {
        resolve(self.maybe_label_color, theme.label_color)
    }

    pub fn label_font_size(&self, theme: &Theme) -> (s: u32)
        ensures
            s == resolve_spec(self.maybe_label_font_size, theme.font_size_medium),
    {
        resolve(self.maybe_label_font_size, theme.font_size_medium)
    }

    pub fn value_font_size(&self, theme: &Theme) -> (s: u32)
        ensures
            s == resolve_spec(self.maybe_value_font_size, 14u32),
    {
        resolve(self.maybe_value_font_size, 14u32)
    }

    pub fn line_thickness(&self, theme: &Theme) -> (t: i64)
        ensures
            t == resolve_spec(self.maybe_line_thickness, 2i64),
    {
        resolve(self.maybe_line_thickness, 2i64)
    }
}

/// A lazily assigned slot for the index of a child widget, stable once set.
#[derive(Clone, Copy, PartialEq, Eq, Structural, Debug)]
pub struct IndexSlot {
    pub maybe_idx: Option<usize>,
}

impl IndexSlot {
    /// An unassigned slot.
    pub fn new() -> (s: IndexSlot)
        ensures
            s.maybe_idx is None,
    {
        IndexSlot { maybe_idx: None }
    }

    /// The slot's index; an unassigned slot takes `fresh` and keeps it.
    pub fn get_or_assign(&mut self, fresh: usize) -> (idx: usize)
        ensures
            match old(self).maybe_idx {
                Some(i) => idx == i && final(self).maybe_idx == Some(i),
                None => idx == fresh && final(self).maybe_idx == Some(fresh),
            },
    {
        match self.maybe_idx {
            Some(i) => i,
            None => {
                self.maybe_idx = Some(fresh);
                fresh
            },
        }
    }
}

/// The cached state of the pad: one index slot per child widget.
#[derive(Clone, Copy, PartialEq, Eq, Structural, Debug)]
pub struct State {
    pub rectangle_idx: IndexSlot,
    pub label_idx: IndexSlot,
    pub h_line_idx: IndexSlot,
    pub v_line_idx: IndexSlot,
    pub value_label_idx: IndexSlot,
}

/// Used for displaying and controlling a 2D point on a cartesian plane
/// within a given range.
///
/// Its reaction is triggered when the value is updated or if the mouse
/// button is released while the cursor is above the rectangle.
pub struct XYPad<F> {
    pub x: i64,
    pub min_x: i64,
    pub max_x: i64,
    pub y: i64,
    pub min_y: i64,
    pub max_y: i64,
    pub maybe_label: Option<String>,
    /// The reaction function for the pad, run when the value changes.
    pub maybe_react: Option<F>,
    pub style: Style,
    /// Indicates whether the pad will respond to user input.
    pub enabled: bool,
}

/// The new value of one axis: with the left button down at `mouse_v`, the
/// position is clamped into the inner range and mapped linearly onto the
/// value range; otherwise the value is kept.
pub open spec fn new_axis_value_spec(
    current: int,
    min_v: int,
    max_v: int,
    lo: int,
    hi: int,
    mouse_v: Option<int>,
) -> int {
    match mouse_v {
        Some(v) => map_range_spec(clamp_spec(v, lo, hi), lo, hi, min_v, max_v),
        None => current,
    }
}

impl<F> XYPad<F> {
    /// Build a new pad showing `(x_val, y_val)` within the given ranges.
    pub fn new(x_val: i64, min_x: i64, max_x: i64, y_val: i64, min_y: i64, max_y: i64) -> (pad:
        XYPad<F>)
        ensures
            pad.x == x_val && pad.min_x == min_x && pad.max_x == max_x,
            pad.y == y_val && pad.min_y == min_y && pad.max_y == max_y,
            pad.maybe_react is None,
            pad.maybe_label is None,
            pad.style == (Style {
                maybe_color: None,
                maybe_frame: None,
                maybe_frame_color: None,
                maybe_label_color: None,
                maybe_label_font_size: None,
                maybe_value_font_size: None,
                maybe_line_thickness: None,
            }),
            pad.enabled,
    {
        XYPad {
            x: x_val,
            min_x,
            max_x,
            y: y_val,
            min_y,
            max_y,
            maybe_react: None,
            maybe_label: None,
            style: Style::new(),
            enabled: true,
        }
    }

    /// Override the crosshair line thickness.
    pub fn line_thickness(self, v: i64) -> (pad: XYPad<F>)
        ensures
            pad == (XYPad {
                style: Style { maybe_line_thickness: Some(v), ..self.style },
                ..self
            }),
    {
        let mut pad = self;
        pad.style.maybe_line_thickness = Some(v);
        pad
    }

    /// Override the value label font size.
    pub fn value_font_size(self, v: u32) -> (pad: XYPad<F>)
        ensures
            pad == (XYPad {
                style: Style { maybe_value_font_size: Some(v), ..self.style },
                ..self
            }),
    {
        let mut pad = self;
        pad.style.maybe_value_font_size = Some(v);
        pad
    }

    /// Set the reaction run when the value changes.
    pub fn react(self, f: F) -> (pad: XYPad<F>)
        ensures
            pad.maybe_react == Some(f),
            pad == (XYPad { maybe_react: Some(f), ..self }),
    {
        let mut pad = self;
        pad.maybe_react = Some(f);
        pad
    }

    /// Set whether the pad responds to input.
    pub fn enabled(self, flag: bool) -> (pad: XYPad<F>)
        ensures
            pad == (XYPad { enabled: flag, ..self }),
    {
        let mut pad = self;
        pad.enabled = flag;
        pad
    }

    /// Override the pad's fill color.
    pub fn color(self, c: Color) -> (pad: XYPad<F>)
        ensures
            pad == (XYPad { style: Style { maybe_color: Some(c), ..self.style }, ..self }),
    {
        let mut pad = self;
        pad.style.maybe_color = Some(c);
        pad
    }

    /// Override the frame width.
    pub fn frame(self, f: i64) -> (pad: XYPad<F>)
        ensures
            pad == (XYPad { style: Style { maybe_frame: Some(f), ..self.style }, ..self }),
    {
        let mut pad = self;
        pad.style.maybe_frame = Some(f);
        pad
    }

    /// Override the frame color.
    pub fn frame_color(self, c: Color) -> (pad: XYPad<F>)
        ensures
            pad == (XYPad { style: Style { maybe_frame_color: Some(c), ..self.style }, ..self }),
    {
        let mut pad = self;
        pad.style.maybe_frame_color = Some(c);
        pad
    }

    /// Set the pad's label.
    pub fn label(self, text: String) -> (pad: XYPad<F>)
        ensures
            pad.maybe_label == Some(text),
            pad == (XYPad { maybe_label: Some(text), ..self }),
    {
        let mut pad = self;
        pad.maybe_label = Some(text);
        pad
    }

    /// Override the label color.
    pub fn label_color(self, c: Color) -> (pad: XYPad<F>)
        ensures
            pad == (XYPad { style: Style { maybe_label_color: Some(c), ..self.style }, ..self }),
    {
        let mut pad = self;
        pad.style.maybe_label_color = Some(c);
        pad
    }

    /// Override the label font size.
    pub fn label_font_size(self, s: u32) -> (pad: XYPad<F>)
        ensures
            pad == (XYPad {
                style: Style { maybe_label_font_size: Some(s), ..self.style },
                ..self
            }),
    {
        let mut pad = self;
        pad.style.maybe_label_font_size = Some(s);
        pad
    }

    /// The pad's kind discriminator.
    pub fn unique_kind(&self) -> (k: &'static str)
    {
        KIND
    }

    /// The initial cached state: no child widget index assigned yet.
    pub fn init_state(&self) -> (s: State)
        ensures
            s.rectangle_idx.maybe_idx is None,
            s.label_idx.maybe_idx is None,
            s.h_line_idx.maybe_idx is None,
            s.v_line_idx.maybe_idx is None,
            s.value_label_idx.maybe_idx is None,
    {
        State {
            rectangle_idx: IndexSlot::new(),
            label_idx: IndexSlot::new(),
            h_line_idx: IndexSlot::new(),
            v_line_idx: IndexSlot::new(),
            value_label_idx: IndexSlot::new(),
        }
    }

    /// The pad's current style.
    pub fn style(&self) -> (s: Style)
        ensures
            s == self.style,
    {
        self.style
    }

    /// The new values of both axes, given the pad's inner rectangle and its
    /// widget-specific mouse view, if the pad captures the mouse. The value
    /// changes only while the left button is down; the pointer position is
    /// clamped into the inner rectangle and mapped onto the value ranges.
    pub fn updated_values<'a>(&self, inner: Rect, maybe_mouse: Option<Mouse<'a>>) -> (r: (
        i64,
        i64,
    ))
        requires
            inner.wf(),
            inner.l < inner.r,
            inner.b < inner.t,
            -0x4000_0000 <= self.min_x <= 0x4000_0000,
            -0x4000_0000 <= self.max_x <= 0x4000_0000,
            -0x4000_0000 <= self.min_y <= 0x4000_0000,
            -0x4000_0000 <= self.max_y <= 0x4000_0000,
        ensures
            ({
                let down = match maybe_mouse {
                    Some(m) => m.buttons.left matches ButtonPosition::Down(_),
                    None => false,
                };
                let mouse_x = if down {
                    Some(maybe_mouse.unwrap().mouse_abs_xy.x as int)
                } else {
                    None
                };
                let mouse_y = if down {
                    Some(maybe_mouse.unwrap().mouse_abs_xy.y as int)
                } else {
                    None
                };
                &&& r.0 as int == new_axis_value_spec(
                    self.x as int,
                    self.min_x as int,
                    self.max_x as int,
                    inner.l as int,
                    inner.r as int,
                    mouse_x,
                )
                &&& r.1 as int == new_axis_value_spec(
                    self.y as int,
                    self.min_y as int,
                    self.max_y as int,
                    inner.b as int,
                    inner.t as int,
                    mouse_y,
                )
            }),
    {
        match maybe_mouse {
            Some(mouse) => {
                if mouse.buttons.left().is_down() {
                    let abs = mouse.mouse_abs_xy;
                    let clamped_x = clamp_value(abs.x, inner.l, inner.r);
                    let clamped_y = clamp_value(abs.y, inner.b, inner.t);
                    let new_x = map_range(clamped_x, inner.l, inner.r, self.min_x, self.max_x);
                    let new_y = map_range(clamped_y, inner.b, inner.t, self.min_y, self.max_y);
                    (new_x, new_y)
                } else {
                    (self.x, self.y)
                }
            },
            None => (self.x, self.y),
        }
    }
}

/// Where the crosshair lines sit inside the inner rectangle: the value is
/// mapped from its range onto the rectangle's half-extents, so the middle of
/// the range lands on the centre.
pub fn crosshair_offsets(
    new_x: i64,
    min_x: i64,
    max_x: i64,
    new_y: i64,
    min_y: i64,
    max_y: i64,
    inner: Rect,
) -> (r: (i64, i64))
    requires
        inner.wf(),
        -0x4000_0000 <= min_x < max_x <= 0x4000_0000,
        -0x4000_0000 <= min_y < max_y <= 0x4000_0000,
        min_x <= new_x <= max_x,
        min_y <= new_y <= max_y,
    ensures
        r.0 as int == map_range_spec(
            new_x as int,
            min_x as int,
            max_x as int,
            -(inner.width_spec() / 2),
            inner.width_spec() / 2,
        ),
        r.1 as int == map_range_spec(
            new_y as int,
            min_y as int,
            max_y as int,
            -(inner.height_spec() / 2),
            inner.height_spec() / 2,
        ),
{
    let half_w: i64 = (inner.w() as u64 / 2) as i64;
    let half_h: i64 = (inner.h() as u64 / 2) as i64;
    let v_line_x = map_range(new_x, min_x, max_x, -half_w, half_w);
    let h_line_y = map_range(new_y, min_y, max_y, -half_h, half_h);
    (v_line_x, h_line_y)
}

/// The directions the value label extends in from the crosshair position:
/// away from the closest edge of the inner rectangle on each axis.
pub fn value_label_directions(inner: Rect, cross_x: i64, cross_y: i64) -> (r: (
    Direction,
    Direction,
))
    requires
        inner.wf(),
        inner.l <= cross_x <= inner.r,
        inner.b <= cross_y <= inner.t,
    ensures
        r.0 == label_direction_spec(
            closest_edge_spec(inner.l as int, inner.r as int, cross_x as int),
        ),
        r.1 == label_direction_spec(
            closest_edge_spec(inner.b as int, inner.t as int, cross_y as int),
        ),
{
    let x_dir = label_direction(closest_edge(inner.l, inner.r, cross_x));
    let y_dir = label_direction(closest_edge(inner.b, inner.t, cross_y));
    (x_dir, y_dir)
}

/// The fill color shown for the pad's backdrop: brightened one step while
/// the pad captures the mouse, two steps while the left button is down.
pub fn interaction_color<'a>(maybe_mouse: Option<Mouse<'a>>, color: Color) -> (c: Color)
    ensures
        c == match maybe_mouse {
            Some(m) => if m.buttons.left matches ButtonPosition::Down(_) {
                Color {
                    red: color.red.saturating_add(crate::theme::CLICK_STEP),
                    green: color.green.saturating_add(crate::theme::CLICK_STEP),
                    blue: color.blue.saturating_add(crate::theme::CLICK_STEP),
                    alpha: color.alpha,
                }
            } else {
                Color {
                    red: color.red.saturating_add(crate::theme::HIGHLIGHT_STEP),
                    green: color.green.saturating_add(crate::theme::HIGHLIGHT_STEP),
                    blue: color.blue.saturating_add(crate::theme::HIGHLIGHT_STEP),
                    alpha: color.alpha,
                }
            },
            None => color,
        },
{
    match maybe_mouse {
        Some(m) => {
            if m.buttons.left().is_down() {
                color.clicked()
            } else {
                color.highlighted()
            }
        },
        None => color,
    }
}

} // verus!
