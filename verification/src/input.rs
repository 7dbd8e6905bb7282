//! Input state snapshots: per-button mouse state, capture ownership, and the
//! global event stream captured for one frame.

use vstd::prelude::*;

pub mod widget;
use crate::events::{MouseButton, UiEvent};
use crate::geom::Point;

verus! {

/// Whether a mouse button is up, or down together with the position it went
/// down at.
#[derive(Clone, Copy, PartialEq, Eq, Structural, Debug)]
pub enum ButtonPosition {
    Up,
    Down(Point),
}

impl ButtonPosition {
    pub fn is_down(&self) -> (r: bool)
        ensures
            r == (self matches ButtonPosition::Down(_)),
    {
        match self {
            ButtonPosition::Down(_) => true,
            ButtonPosition::Up => false,
        }
    }

    pub fn is_up(&self) -> (r: bool)
        ensures
            r == (self matches ButtonPosition::Up),
    {
        match self {
            ButtonPosition::Up => true,
            ButtonPosition::Down(_) => false,
        }
    }
}

/// The state of every mouse button.
#[derive(Clone, Copy, PartialEq, Eq, Structural, Debug)]
pub struct ButtonMap {
    pub unknown: ButtonPosition,
    pub left: ButtonPosition,
    pub right: ButtonPosition,
    pub middle: ButtonPosition,
    pub x1: ButtonPosition,
    pub x2: ButtonPosition,
}

impl ButtonMap {
    /// A map with every button up.
    pub fn all_up() -> (m: ButtonMap)
        ensures
            m == (ButtonMap {
                unknown: ButtonPosition::Up,
                left: ButtonPosition::Up,
                right: ButtonPosition::Up,
                middle: ButtonPosition::Up,
                x1: ButtonPosition::Up,
                x2: ButtonPosition::Up,
            }),
    {
        ButtonMap {
            unknown: ButtonPosition::Up,
            left: ButtonPosition::Up,
            right: ButtonPosition::Up,
            middle: ButtonPosition::Up,
            x1: ButtonPosition::Up,
            x2: ButtonPosition::Up,
        }
    }

    pub open spec fn button_spec(self, b: MouseButton) -> ButtonPosition {
        match b {
            MouseButton::Unknown => self.unknown,
            MouseButton::Left => self.left,
            MouseButton::Right => self.right,
            MouseButton::Middle => self.middle,
            MouseButton::X1 => self.x1,
            MouseButton::X2 => self.x2,
        }
    }

    /// The state of the given button.
    pub fn button(&self, b: MouseButton) -> (r: ButtonPosition)
        ensures
            r == self.button_spec(b),
    {
        match b {
            MouseButton::Unknown => self.unknown,
            MouseButton::Left => self.left,
            MouseButton::Right => self.right,
            MouseButton::Middle => self.middle,
            MouseButton::X1 => self.x1,
            MouseButton::X2 => self.x2,
        }
    }

    /// The state of the left button.
    pub fn left(&self) -> (r: ButtonPosition)
        ensures
            r == self.left,
    {
        self.left
    }
}

/// The mouse: its absolute position and the state of its buttons.
#[derive(Clone, Copy, PartialEq, Eq, Structural, Debug)]
pub struct MouseState {
    pub xy: Point,
    pub buttons: ButtonMap,
}

/// A snapshot of the input state: the mouse, and which widget, if any, holds
/// each capture. At most one widget holds each capture at a time.
#[derive(Clone, Copy, PartialEq, Eq, Structural, Debug)]
pub struct State {
    pub mouse: MouseState,
    pub widget_capturing_mouse: Option<usize>,
    pub widget_capturing_keyboard: Option<usize>,
}

/// Everything the router needs for one frame: the captured chronological
/// event stream, the input state at the start of the frame, and the current
/// input state.
#[derive(Clone, PartialEq, Debug)]
pub struct Global {
    pub events: Vec<UiEvent>,
    pub start: State,
    pub current: State,
}

} // verus!
