//! Colors, style records with optional per-widget overrides, and the theme
//! defaults they fall back to.
//!
//! Every style attribute is resolved the same way: an explicit override wins,
//! otherwise the theme supplies the value.

use vstd::prelude::*;

verus! {

/// An RGBA color with 8-bit channels.
#[derive(Clone, Copy, PartialEq, Eq, Structural, Debug)]
pub struct Color {
    pub red: u8,
    pub green: u8,
    pub blue: u8,
    pub alpha: u8,
}

/// How much each channel is brightened for a hovered widget.
pub const HIGHLIGHT_STEP: u8 = 25;

/// How much each channel is brightened for a pressed widget.
pub const CLICK_STEP: u8 = 50;

impl Color {
    /// The same color with the alpha channel replaced.
    pub fn with_alpha(self, alpha: u8) -> (c: Color)
        ensures
            c == (Color { alpha, ..self }),
    {
        Color { red: self.red, green: self.green, blue: self.blue, alpha }
    }

    /// Brightened variant shown while the pointer hovers over a widget:
    /// every channel rises by [`HIGHLIGHT_STEP`], saturating at 255.
    pub fn highlighted(self) -> (c: Color)
        ensures
            c.red == self.red.saturating_add(HIGHLIGHT_STEP),
            c.green == self.green.saturating_add(HIGHLIGHT_STEP),
            c.blue == self.blue.saturating_add(HIGHLIGHT_STEP),
            c.alpha == self.alpha,
    {
        Color {
            red: self.red.saturating_add(HIGHLIGHT_STEP),
            green: self.green.saturating_add(HIGHLIGHT_STEP),
            blue: self.blue.saturating_add(HIGHLIGHT_STEP),
            alpha: self.alpha,
        }
    }

    /// Brightened variant shown while a widget is pressed: every channel
    /// rises by [`CLICK_STEP`], saturating at 255.
    pub fn clicked(self) -> (c: Color)
        ensures
            c.red == self.red.saturating_add(CLICK_STEP),
            c.green == self.green.saturating_add(CLICK_STEP),
            c.blue == self.blue.saturating_add(CLICK_STEP),
            c.alpha == self.alpha,
    {
        Color {
            red: self.red.saturating_add(CLICK_STEP),
            green: self.green.saturating_add(CLICK_STEP),
            blue: self.blue.saturating_add(CLICK_STEP),
            alpha: self.alpha,
        }
    }
}

/// Theme defaults used wherever a style leaves an attribute unset.
#[derive(Clone, Copy, PartialEq, Eq, Structural, Debug)]
pub struct Theme {
    pub shape_color: Color,
    pub frame_color: Color,
    pub frame_width: i64,
    pub label_color: Color,
    pub font_size_medium: u32,
}

/// An explicit override wins over the theme default.
pub open spec fn resolve_spec<T>(over: Option<T>, default: T) -> T {
    match over {
        Some(v) => v,
        None => default,
    }
}

/// Resolve one style attribute against its theme default.
pub fn resolve<T>(over: Option<T>, default: T) -> (r: T)
    ensures
        r == resolve_spec(over, default),
{
    match over {
        Some(v) => v,
        None => default,
    }
}

/// Horizontal or vertical alignment within a bounding rectangle.
#[derive(Clone, Copy, PartialEq, Eq, Structural, Debug)]
pub enum Align {
    Start,
    Middle,
    End,
}

/// How a polyline is stroked.
#[derive(Clone, Copy, PartialEq, Eq, Structural, Debug)]
pub enum Pattern {
    Solid,
    Dashed,
    Dotted,
}

/// The shape of a stroked line's ends.
#[derive(Clone, Copy, PartialEq, Eq, Structural, Debug)]
pub enum Cap {
    Flat,
    Round,
}

/// Styling for stroked lines, each attribute optionally overridden.
#[derive(Clone, Copy, PartialEq, Eq, Structural, Debug)]
pub struct LineStyle {
    pub maybe_pattern: Option<Pattern>,
    pub maybe_color: Option<Color>,
    pub maybe_thickness: Option<i64>,
    pub maybe_cap: Option<Cap>,
}

impl LineStyle {
    pub fn new() -> (s: LineStyle)
        ensures
            s.maybe_pattern is None,
            s.maybe_color is None,
            s.maybe_thickness is None,
            s.maybe_cap is None,
    {
        LineStyle { maybe_pattern: None, maybe_color: None, maybe_thickness: None, maybe_cap: None }
    }

    pub open spec fn pattern_spec(self) -> Pattern {
        resolve_spec(self.maybe_pattern, Pattern::Solid)
    }

    pub fn get_pattern(&self, theme: &Theme) -> (p: Pattern)
        ensures
            p == self.pattern_spec(),
    {
        resolve(self.maybe_pattern, Pattern::Solid)
    }

    pub open spec fn color_spec(self, theme: Theme) -> Color {
        resolve_spec(self.maybe_color, theme.shape_color)
    }

    pub fn get_color(&self, theme: &Theme) -> (c: Color)
        ensures
            c == self.color_spec(*theme),
    {
        resolve(self.maybe_color, theme.shape_color)
    }

    pub open spec fn thickness_spec(self) -> i64 {
        resolve_spec(self.maybe_thickness, 1i64)
    }

    pub fn get_thickness(&self, theme: &Theme) -> (t: i64)
        ensures
            t == self.thickness_spec(),
    {
        resolve(self.maybe_thickness, 1i64)
    }

    pub open spec fn cap_spec(self) -> Cap {
        resolve_spec(self.maybe_cap, Cap::Flat)
    }

    pub fn get_cap(&self, theme: &Theme) -> (c: Cap)
        ensures
            c == self.cap_spec(),
    {
        resolve(self.maybe_cap, Cap::Flat)
    }
}

/// Styling shared by the filled shapes: either a fill color or an outline.
#[derive(Clone, Copy, PartialEq, Eq, Structural, Debug)]
pub enum ShapeStyle {
    Fill(Option<Color>),
    Outline(LineStyle),
}

impl ShapeStyle {
    pub open spec fn color_spec(self, theme: Theme) -> Color {
        match self {
            ShapeStyle::Fill(maybe) => resolve_spec(maybe, theme.shape_color),
            ShapeStyle::Outline(line) => line.color_spec(theme),
        }
    }

    pub fn get_color(&self, theme: &Theme) -> (c: Color)
        ensures
            c == self.color_spec(*theme),
    {
        match self {
            ShapeStyle::Fill(maybe) => resolve(*maybe, theme.shape_color),
            ShapeStyle::Outline(line) => line.get_color(theme),
        }
    }
}

/// Styling of a framed rectangle: an inner fill surrounded by a frame.
#[derive(Clone, Copy, PartialEq, Eq, Structural, Debug)]
pub struct FramedRectangleStyle {
    pub maybe_color: Option<Color>,
    pub maybe_frame: Option<i64>,
    pub maybe_frame_color: Option<Color>,
}

impl FramedRectangleStyle {
    pub open spec fn color_spec(self, theme: Theme) -> Color {
        resolve_spec(self.maybe_color, theme.shape_color)
    }

    pub fn color(&self, theme: &Theme) -> (c: Color)
        ensures
            c == self.color_spec(*theme),
    {
        resolve(self.maybe_color, theme.shape_color)
    }

    pub open spec fn frame_spec(self, theme: Theme) -> i64 {
        resolve_spec(self.maybe_frame, theme.frame_width)
    }

    pub fn frame(&self, theme: &Theme) -> (f: i64)
        ensures
            f == self.frame_spec(*theme),
    {
        resolve(self.maybe_frame, theme.frame_width)
    }

    pub open spec fn frame_color_spec(self, theme: Theme) -> Color {
        resolve_spec(self.maybe_frame_color, theme.frame_color)
    }

    pub fn frame_color(&self, theme: &Theme) -> (c: Color)
        ensures
            c == self.frame_color_spec(*theme),
    {
        resolve(self.maybe_frame_color, theme.frame_color)
    }
}

/// Styling of a text widget.
#[derive(Clone, Copy, PartialEq, Eq, Structural, Debug)]
pub struct TextStyle {
    pub maybe_font_size: Option<u32>,
    pub maybe_color: Option<Color>,
    pub maybe_line_spacing: Option<i64>,
    pub maybe_x_align: Option<Align>,
}

impl TextStyle {
    pub open spec fn font_size_spec(self, theme: Theme) -> u32 {
        resolve_spec(self.maybe_font_size, theme.font_size_medium)
    }

    pub fn font_size(&self, theme: &Theme) -> (s: u32)
        ensures
            s == self.font_size_spec(*theme),
    {
        resolve(self.maybe_font_size, theme.font_size_medium)
    }

    pub open spec fn color_spec(self, theme: Theme) -> Color {
        resolve_spec(self.maybe_color, theme.label_color)
    }

    pub fn color(&self, theme: &Theme) -> (c: Color)
        ensures
            c == self.color_spec(*theme),
    {
        resolve(self.maybe_color, theme.label_color)
    }

    pub open spec fn line_spacing_spec(self) -> i64 {
        resolve_spec(self.maybe_line_spacing, 1i64)
    }

    pub fn line_spacing(&self, theme: &Theme) -> (s: i64)
        ensures
            s == self.line_spacing_spec(),
    {
        resolve(self.maybe_line_spacing, 1i64)
    }

    pub open spec fn text_align_spec(self) -> Align {
        resolve_spec(self.maybe_x_align, Align::Start)
    }

    pub fn text_align(&self, theme: &Theme) -> (a: Align)
        ensures
            a == self.text_align_spec(),
    {
        resolve(self.maybe_x_align, Align::Start)
    }
}

/// Styling of an image widget: an optional tint, itself optionally overridden.
#[derive(Clone, Copy, PartialEq, Eq, Structural, Debug)]
pub struct ImageStyle {
    pub maybe_color: Option<Option<Color>>,
}

impl ImageStyle {
    pub open spec fn tint_spec(self) -> Option<Color> {
        match self.maybe_color {
            Some(t) => t,
            None => None,
        }
    }

    pub fn tint(&self) -> (t: Option<Color>)
        ensures
            t == self.tint_spec(),
    {
        match self.maybe_color {
            Some(t) => t,
            None => None,
        }
    }
}

} // verus!
