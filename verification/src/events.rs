//! Global and per-widget input events.
//!
//! A global event optionally targets a widget and carries its positional
//! payload in global coordinates. Its per-widget projection replaces capture
//! notifications by plain transition signals and translates positional
//! payloads to coordinates relative to the target widget's rectangle centre.

use vstd::prelude::*;
use crate::geom::{Point, vec2_sub, vec2_sub_spec};

verus! {

/// A button of the pointing device.
#[derive(Clone, Copy, PartialEq, Eq, Structural, Debug)]
pub enum MouseButton {
    Unknown,
    Left,
    Right,
    Middle,
    X1,
    X2,
}

/// A pressed or released button: a keyboard key, or a mouse button together
/// with the position it went down or up at.
#[derive(Clone, Copy, PartialEq, Eq, Structural, Debug)]
pub enum Button {
    Keyboard(u32),
    Mouse(MouseButton, Point),
}

impl Button {
    /// The same button with a mouse position translated by `-origin`;
    /// keyboard keys carry no position and pass through.
    pub open spec fn relative_to_spec(self, origin: Point) -> Button {
        match self {
            Button::Keyboard(k) => Button::Keyboard(k),
            Button::Mouse(b, xy) => Button::Mouse(b, vec2_sub_spec(xy, origin)),
        }
    }

    pub fn relative_to(self, origin: Point) -> (r: Button)
        ensures
            r == self.relative_to_spec(origin),
    {
        match self {
            Button::Keyboard(k) => Button::Keyboard(k),
            Button::Mouse(b, xy) => Button::Mouse(b, vec2_sub(xy, origin)),
        }
    }
}

/// Entered text.
#[derive(Clone, PartialEq, Debug)]
pub struct Text {
    pub string: String,
}

/// A pointer motion; its payload keeps whatever relativity its producer
/// assigned and is never translated.
#[derive(Clone, Copy, PartialEq, Eq, Structural, Debug)]
pub struct Motion {
    pub to: Point,
}

/// A button going down.
#[derive(Clone, Copy, PartialEq, Eq, Structural, Debug)]
pub struct Press {
    pub button: Button,
}

impl Press {
    pub open spec fn relative_to_spec(self, origin: Point) -> Press {
        Press { button: self.button.relative_to_spec(origin) }
    }

    pub fn relative_to(self, origin: Point) -> (r: Press)
        ensures
            r == self.relative_to_spec(origin),
    {
        Press { button: self.button.relative_to(origin) }
    }
}

/// A button going up.
#[derive(Clone, Copy, PartialEq, Eq, Structural, Debug)]
pub struct Release {
    pub button: Button,
}

impl Release {
    pub open spec fn relative_to_spec(self, origin: Point) -> Release {
        Release { button: self.button.relative_to_spec(origin) }
    }

    pub fn relative_to(self, origin: Point) -> (r: Release)
        ensures
            r == self.relative_to_spec(origin),
    {
        Release { button: self.button.relative_to(origin) }
    }
}

/// A synthesised click: a press and release of the same button over the same
/// widget. The router only projects clicks, it never infers them.
#[derive(Clone, Copy, PartialEq, Eq, Structural, Debug)]
pub struct Click {
    pub button: MouseButton,
    pub xy: Point,
}

impl Click {
    pub open spec fn relative_to_spec(self, origin: Point) -> Click {
        Click { button: self.button, xy: vec2_sub_spec(self.xy, origin) }
    }

    pub fn relative_to(self, origin: Point) -> (r: Click)
        ensures
            r == self.relative_to_spec(origin),
    {
        Click { button: self.button, xy: vec2_sub(self.xy, origin) }
    }
}

/// A synthesised double click.
#[derive(Clone, Copy, PartialEq, Eq, Structural, Debug)]
pub struct DoubleClick {
    pub button: MouseButton,
    pub xy: Point,
}

impl DoubleClick {
    pub open spec fn relative_to_spec(self, origin: Point) -> DoubleClick {
        DoubleClick { button: self.button, xy: vec2_sub_spec(self.xy, origin) }
    }

    pub fn relative_to(self, origin: Point) -> (r: DoubleClick)
        ensures
            r == self.relative_to_spec(origin),
    {
        DoubleClick { button: self.button, xy: vec2_sub(self.xy, origin) }
    }
}

/// A drag: the pointer moved while a button was down.
#[derive(Clone, Copy, PartialEq, Eq, Structural, Debug)]
pub struct Drag {
    pub button: MouseButton,
    pub origin: Point,
    pub from: Point,
    pub to: Point,
}

impl Drag {
    pub open spec fn relative_to_spec(self, xy: Point) -> Drag {
        Drag {
            button: self.button,
            origin: vec2_sub_spec(self.origin, xy),
            from: vec2_sub_spec(self.from, xy),
            to: vec2_sub_spec(self.to, xy),
        }
    }

    pub fn relative_to(self, xy: Point) -> (r: Drag)
        ensures
            r == self.relative_to_spec(xy),
    {
        Drag {
            button: self.button,
            origin: vec2_sub(self.origin, xy),
            from: vec2_sub(self.from, xy),
            to: vec2_sub(self.to, xy),
        }
    }
}

/// A scroll; its payload keeps the producer's relativity and is never
/// translated.
#[derive(Clone, Copy, PartialEq, Eq, Structural, Debug)]
pub struct Scroll {
    pub x: i64,
    pub y: i64,
}

/// One event of the global, chronological stream captured for a frame.
#[derive(Clone, PartialEq, Debug)]
pub enum UiEvent {
    WidgetCapturesMouse(usize),
    WidgetUncapturesMouse(usize),
    WidgetCapturesKeyboard(usize),
    WidgetUncapturesKeyboard(usize),
    WindowResized(i64, i64),
    Text(Option<usize>, Text),
    Move(Option<usize>, Motion),
    Press(Option<usize>, Press),
    Release(Option<usize>, Release),
    Click(Option<usize>, Click),
    DoubleClick(Option<usize>, DoubleClick),
    Drag(Option<usize>, Drag),
    Scroll(Option<usize>, Scroll),
}

/// The per-widget projection of a global event.
#[derive(Clone, PartialEq, Debug)]
pub enum WidgetEvent {
    CapturesMouse,
    UncapturesMouse,
    CapturesKeyboard,
    UncapturesKeyboard,
    WindowResized(i64, i64),
    Text(Text),
    Move(Motion),
    Press(Press),
    Release(Release),
    Click(Click),
    DoubleClick(DoubleClick),
    Drag(Drag),
    Scroll(Scroll),
}

} // verus!
