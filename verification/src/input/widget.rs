//! Filtering the global event stream into per-widget, capture-aware,
//! coordinate-relative event cursors.
//!
//! [`Widget::events`] yields every event relevant to one widget, in stream
//! order, as a lazy single-pass cursor; the derived cursors project clicks,
//! drags, texts and scrolls out of it. Positional payloads are translated to
//! coordinates relative to the widget rectangle's centre.

use vstd::prelude::*;
use crate::events::{Click, Drag, MouseButton, Scroll, Text, UiEvent, WidgetEvent};
use crate::geom::{Point, Rect, vec2_sub, vec2_sub_spec};
use crate::input::{ButtonMap, Global};

verus! {

/// The projection of one global event onto the widget `idx` with rectangle
/// `rect`: capture events of other widgets and targeted events of other
/// widgets are dropped, window resizes are broadcast, positional payloads
/// are made relative to the rectangle's centre.
pub open spec fn deliver_spec(e: UiEvent, idx: usize, rect: Rect) -> Option<WidgetEvent> {
    let center = rect.center_spec();
    match e {
        UiEvent::WidgetCapturesMouse(i) => if i == idx {
            Some(WidgetEvent::CapturesMouse)
        } else {
            None
        },
        UiEvent::WidgetUncapturesMouse(i) => if i == idx {
            Some(WidgetEvent::UncapturesMouse)
        } else {
            None
        },
        UiEvent::WidgetCapturesKeyboard(i) => if i == idx {
            Some(WidgetEvent::CapturesKeyboard)
        } else {
            None
        },
        UiEvent::WidgetUncapturesKeyboard(i) => if i == idx {
            Some(WidgetEvent::UncapturesKeyboard)
        } else {
            None
        },
        UiEvent::WindowResized(w, h) => Some(WidgetEvent::WindowResized(w, h)),
        UiEvent::Text(t, text) => if t == Some(idx) {
            Some(WidgetEvent::Text(text))
        } else {
            None
        },
        UiEvent::Move(t, m) => if t == Some(idx) {
            Some(WidgetEvent::Move(m))
        } else {
            None
        },
        UiEvent::Press(t, p) => if t == Some(idx) {
            Some(WidgetEvent::Press(p.relative_to_spec(center)))
        } else {
            None
        },
        UiEvent::Release(t, p) => if t == Some(idx) {
            Some(WidgetEvent::Release(p.relative_to_spec(center)))
        } else {
            None
        },
        UiEvent::Click(t, c) => if t == Some(idx) {
            Some(WidgetEvent::Click(c.relative_to_spec(center)))
        } else {
            None
        },
        UiEvent::DoubleClick(t, c) => if t == Some(idx) {
            Some(WidgetEvent::DoubleClick(c.relative_to_spec(center)))
        } else {
            None
        },
        UiEvent::Drag(t, d) => if t == Some(idx) {
            Some(WidgetEvent::Drag(d.relative_to_spec(center)))
        } else {
            None
        },
        UiEvent::Scroll(t, s) => if t == Some(idx) {
            Some(WidgetEvent::Scroll(s))
        } else {
            None
        },
    }
}

/// Every widget event the stream delivers to widget `idx`, in stream order.
pub open spec fn route_spec(stream: Seq<UiEvent>, idx: usize, rect: Rect) -> Seq<WidgetEvent>
    decreases stream.len(),
{
    if stream.len() == 0 {
        Seq::empty()
    } else {
        let rest = route_spec(stream.drop_first(), idx, rect);
        match deliver_spec(stream[0], idx, rect) {
            Some(w) => seq![w] + rest,
            None => rest,
        }
    }
}

/// One capture-tracking step: a capture event takes the mouse capture, an
/// uncapture event of the current holder releases it.
pub open spec fn step_capture_mouse(cap: Option<usize>, e: UiEvent) -> Option<usize> {
    match e {
        UiEvent::WidgetCapturesMouse(i) => Some(i),
        UiEvent::WidgetUncapturesMouse(i) => if cap == Some(i) {
            None
        } else {
            cap
        },
        _ => cap,
    }
}

/// The mouse capture holder after scanning `s`, starting from `cap`.
pub open spec fn capture_mouse_after(s: Seq<UiEvent>, cap: Option<usize>) -> Option<usize>
    decreases s.len(),
{
    if s.len() == 0 {
        cap
    } else {
        step_capture_mouse(capture_mouse_after(s.drop_last(), cap), s.last())
    }
}

/// One capture-tracking step for the keyboard.
pub open spec fn step_capture_keyboard(cap: Option<usize>, e: UiEvent) -> Option<usize> {
    match e {
        UiEvent::WidgetCapturesKeyboard(i) => Some(i),
        UiEvent::WidgetUncapturesKeyboard(i) => if cap == Some(i) {
            None
        } else {
            cap
        },
        _ => cap,
    }
}

/// The keyboard capture holder after scanning `s`, starting from `cap`.
pub open spec fn capture_keyboard_after(s: Seq<UiEvent>, cap: Option<usize>) -> Option<usize>
    decreases s.len(),
{
    if s.len() == 0 {
        cap
    } else {
        step_capture_keyboard(capture_keyboard_after(s.drop_last(), cap), s.last())
    }
}

/// Provides only events and input state that are relevant to one widget.
#[derive(Clone)]
pub struct Widget<'a> {
    pub global: &'a Global,
    pub rect: Rect,
    pub idx: usize,
}

/// A view of the mouse specific to one widget.
#[derive(Clone, Copy, Debug)]
pub struct Mouse<'a> {
    pub rect: Rect,
    pub mouse_abs_xy: Point,
    /// The state of each mouse button.
    pub buttons: &'a ButtonMap,
}

/// A lazy, forward-only, single-pass cursor over the widget events of one
/// widget. It tracks capture transitions as it scans, but delivery is gated
/// only on each event's target, never on the tracked capture state.
#[derive(Clone)]
pub struct Events<'a> {
    pub events: &'a Vec<UiEvent>,
    pub pos: usize,
    pub capturing_mouse: Option<usize>,
    pub capturing_keyboard: Option<usize>,
    pub rect: Rect,
    pub idx: usize,
}

/// A cursor over the clicks delivered to one widget.
#[derive(Clone)]
pub struct Clicks<'a> {
    pub events: Events<'a>,
}

/// A cursor over the clicks of one mouse button delivered to one widget.
#[derive(Clone)]
pub struct ButtonClicks<'a> {
    pub clicks: Clicks<'a>,
    pub button: MouseButton,
}

/// A cursor over the drags delivered to one widget.
#[derive(Clone)]
pub struct Drags<'a> {
    pub events: Events<'a>,
}

/// A cursor over the drags of one mouse button delivered to one widget.
#[derive(Clone)]
pub struct ButtonDrags<'a> {
    pub drags: Drags<'a>,
    pub button: MouseButton,
}

/// A cursor over the text entries delivered to one widget.
#[derive(Clone)]
pub struct Texts<'a> {
    pub events: Events<'a>,
}

/// A cursor over the scrolls delivered to one widget.
#[derive(Clone)]
pub struct Scrolls<'a> {
    pub events: Events<'a>,
}

impl<'a> Widget<'a> {
    /// Returns a `Widget` with events specifically for the given widget.
    pub fn for_widget(idx: usize, rect: Rect, global: &'a Global) -> (w: Widget<'a>)
        ensures
            w.global == global,
            w.rect == rect,
            w.idx == idx,
    {
        Widget { global, rect, idx }
    }

    /// The state of the mouse, if and only if this widget currently holds
    /// the mouse capture.
    pub fn mouse(&self) -> (r: Option<Mouse<'a>>)
        ensures
            match r {
                Some(m) => {
                    &&& self.global.current.widget_capturing_mouse == Some(self.idx)
                    &&& m.rect == self.rect
                    &&& m.mouse_abs_xy == self.global.current.mouse.xy
                    &&& *m.buttons == self.global.current.mouse.buttons
                },
                None => self.global.current.widget_capturing_mouse != Some(self.idx),
            },
    {
        let captured = match self.global.current.widget_capturing_mouse {
            Some(j) => j == self.idx,
            None => false,
        };
        if captured {
            Some(
                Mouse {
                    buttons: &self.global.current.mouse.buttons,
                    mouse_abs_xy: self.global.current.mouse.xy,
                    rect: self.rect,
                },
            )
        } else {
            None
        }
    }

    /// A fresh cursor over this widget's events, scanning the whole captured
    /// stream from its start, seeded with the start-of-frame capture state.
    pub fn events(&self) -> (e: Events<'a>)
        ensures
            e.events@ == self.global.events@,
            e.pos == 0,
            e.capturing_mouse == self.global.start.widget_capturing_mouse,
            e.capturing_keyboard == self.global.start.widget_capturing_keyboard,
            e.rect == self.rect,
            e.idx == self.idx,
    {
        Events {
            events: &self.global.events,
            pos: 0,
            capturing_mouse: self.global.start.widget_capturing_mouse,
            capturing_keyboard: self.global.start.widget_capturing_keyboard,
            rect: self.rect,
            idx: self.idx,
        }
    }

    /// A cursor over this widget's clicks.
    pub fn clicks(&self) -> (c: Clicks<'a>)
        ensures
            c.events.events@ == self.global.events@,
            c.events.pos == 0,
            c.events.capturing_mouse == self.global.start.widget_capturing_mouse,
            c.events.capturing_keyboard == self.global.start.widget_capturing_keyboard,
            c.events.rect == self.rect,
            c.events.idx == self.idx,
    {
        Clicks { events: self.events() }
    }

    /// A cursor over this widget's drags.
    pub fn drags(&self) -> (d: Drags<'a>)
        ensures
            d.events.events@ == self.global.events@,
            d.events.pos == 0,
            d.events.capturing_mouse == self.global.start.widget_capturing_mouse,
            d.events.capturing_keyboard == self.global.start.widget_capturing_keyboard,
            d.events.rect == self.rect,
            d.events.idx == self.idx,
    {
        Drags { events: self.events() }
    }

    /// A cursor over this widget's text entries.
    pub fn texts(&self) -> (t: Texts<'a>)
        ensures
            t.events.events@ == self.global.events@,
            t.events.pos == 0,
            t.events.capturing_mouse == self.global.start.widget_capturing_mouse,
            t.events.capturing_keyboard == self.global.start.widget_capturing_keyboard,
            t.events.rect == self.rect,
            t.events.idx == self.idx,
    {
        Texts { events: self.events() }
    }

    /// A cursor over this widget's scrolls.
    pub fn scrolls(&self) -> (s: Scrolls<'a>)
        ensures
            s.events.events@ == self.global.events@,
            s.events.pos == 0,
            s.events.capturing_mouse == self.global.start.widget_capturing_mouse,
            s.events.capturing_keyboard == self.global.start.widget_capturing_keyboard,
            s.events.rect == self.rect,
            s.events.idx == self.idx,
    {
        Scrolls { events: self.events() }
    }
}

impl<'a> Mouse<'a> {
    /// The absolute position of the mouse within the window.
    pub fn abs_xy(&self) -> (p: Point)
        ensures
            p == self.mouse_abs_xy,
    {
        self.mouse_abs_xy
    }

    /// The position of the mouse relative to the middle of the widget's
    /// rectangle.
    pub fn rel_xy(&self) -> (p: Point)
        requires
            self.rect.wf(),
        ensures
            p == vec2_sub_spec(self.mouse_abs_xy, self.rect.center_spec()),
    {
        vec2_sub(self.mouse_abs_xy, self.rect.xy())
    }

    /// Is the mouse currently over the widget?
    pub fn is_over(&self) -> (r: bool)
        ensures
            r == self.rect.is_over_spec(self.mouse_abs_xy),
    {
        self.rect.is_over(self.mouse_abs_xy)
    }
}

impl<'a> Events<'a> {
    /// The cursor's position stays inside the stream and the rectangle
    /// supports centre arithmetic.
    pub open spec fn wf(self) -> bool {
        self.pos <= self.events@.len() && self.rect.wf()
    }

    /// The part of the stream not yet scanned.
    pub open spec fn remaining(self) -> Seq<UiEvent> {
        self.events@.subrange(self.pos as int, self.events@.len() as int)
    }

    /// The widget events not yet produced.
    pub open spec fn remaining_route(self) -> Seq<WidgetEvent> {
        route_spec(self.remaining(), self.idx, self.rect)
    }

    /// Unchanged stream, widget and rectangle.
    pub open spec fn same_stream(self, other: Events<'a>) -> bool {
        self.events == other.events && self.idx == other.idx && self.rect == other.rect
    }

    /// Scan forward to the next event delivered to this widget, updating the
    /// tracked capture state along the way, and produce it; `None` once the
    /// stream is exhausted.
    pub fn next(&mut self) -> (r: Option<WidgetEvent>)
        requires
            old(self).wf(),
        ensures
            final(self).wf(),
            final(self).same_stream(*old(self)),
            old(self).pos <= final(self).pos,
            final(self).capturing_mouse == capture_mouse_after(
                old(self).events@.subrange(old(self).pos as int, final(self).pos as int),
                old(self).capturing_mouse,
            ),
            final(self).capturing_keyboard == capture_keyboard_after(
                old(self).events@.subrange(old(self).pos as int, final(self).pos as int),
                old(self).capturing_keyboard,
            ),
            match r {
                None => old(self).remaining_route().len() == 0 && final(self).remaining().len() == 0,
                Some(e) => {
                    &&& old(self).remaining_route().len() > 0
                    &&& e == old(self).remaining_route()[0]
                    &&& final(self).remaining_route() == old(self).remaining_route().drop_first()
                },
            },
    {
        let center = self.rect.xy();
        let evs = self.events;
        loop
            invariant
                self.wf(),
                self.same_stream(*old(self)),
                self.events == evs,
                old(self).pos <= self.pos,
                center == self.rect.center_spec(),
                self.remaining_route() == old(self).remaining_route(),
                self.capturing_mouse == capture_mouse_after(
                    old(self).events@.subrange(old(self).pos as int, self.pos as int),
                    old(self).capturing_mouse,
                ),
                self.capturing_keyboard == capture_keyboard_after(
                    old(self).events@.subrange(old(self).pos as int, self.pos as int),
                    old(self).capturing_keyboard,
                ),
            decreases evs@.len() - self.pos,
        {
            if self.pos >= evs.len() {
                return None;
            }
            let ghost pre = *self;
            let delivered: Option<WidgetEvent> = match &evs[self.pos] {
                UiEvent::WidgetCapturesMouse(i) => {
                    self.capturing_mouse = Some(*i);
                    if *i == self.idx {
                        Some(WidgetEvent::CapturesMouse)
                    } else {
                        None
                    }
                },
                UiEvent::WidgetUncapturesMouse(i) => {
                    let held = match self.capturing_mouse {
                        Some(j) => j == *i,
                        None => false,
                    };
                    if held {
                        self.capturing_mouse = None;
                    }
                    if *i == self.idx {
                        Some(WidgetEvent::UncapturesMouse)
                    } else {
                        None
                    }
                },
                UiEvent::WidgetCapturesKeyboard(i) => {
                    self.capturing_keyboard = Some(*i);
                    if *i == self.idx {
                        Some(WidgetEvent::CapturesKeyboard)
                    } else {
                        None
                    }
                },
                UiEvent::WidgetUncapturesKeyboard(i) => {
                    let held = match self.capturing_keyboard {
                        Some(j) => j == *i,
                        None => false,
                    };
                    if held {
                        self.capturing_keyboard = None;
                    }
                    if *i == self.idx {
                        Some(WidgetEvent::UncapturesKeyboard)
                    } else {
                        None
                    }
                },
                UiEvent::WindowResized(w, h) => Some(WidgetEvent::WindowResized(*w, *h)),
                UiEvent::Text(t, text) => {
                    let targeted = match t {
                        Some(j) => *j == self.idx,
                        None => false,
                    };
                    if targeted {
                        Some(WidgetEvent::Text(Text { string: text.string.clone() }))
                    } else {
                        None
                    }
                },
                UiEvent::Move(t, m) => {
                    let targeted = match t {
                        Some(j) => *j == self.idx,
                        None => false,
                    };
                    if targeted {
                        Some(WidgetEvent::Move(*m))
                    } else {
                        None
                    }
                },
                UiEvent::Press(t, p) => {
                    let targeted = match t {
                        Some(j) => *j == self.idx,
                        None => false,
                    };
                    if targeted {
                        Some(WidgetEvent::Press(p.relative_to(center)))
                    } else {
                        None
                    }
                },
                UiEvent::Release(t, p) => {
                    let targeted = match t {
                        Some(j) => *j == self.idx,
                        None => false,
                    };
                    if targeted {
                        Some(WidgetEvent::Release(p.relative_to(center)))
                    } else {
                        None
                    }
                },
                UiEvent::Click(t, c) => {
                    let targeted = match t {
                        Some(j) => *j == self.idx,
                        None => false,
                    };
                    if targeted {
                        Some(WidgetEvent::Click(c.relative_to(center)))
                    } else {
                        None
                    }
                },
                UiEvent::DoubleClick(t, c) => {
                    let targeted = match t {
                        Some(j) => *j == self.idx,
                        None => false,
                    };
                    if targeted {
                        Some(WidgetEvent::DoubleClick(c.relative_to(center)))
                    } else {
                        None
                    }
                },
                UiEvent::Drag(t, d) => {
                    let targeted = match t {
                        Some(j) => *j == self.idx,
                        None => false,
                    };
                    if targeted {
                        Some(WidgetEvent::Drag(d.relative_to(center)))
                    } else {
                        None
                    }
                },
                UiEvent::Scroll(t, s) => {
                    let targeted = match t {
                        Some(j) => *j == self.idx,
                        None => false,
                    };
                    if targeted {
                        Some(WidgetEvent::Scroll(*s))
                    } else {
                        None
                    }
                },
            };
            proof {
                let e = evs@[pre.pos as int];
                assert(delivered == deliver_spec(e, self.idx, self.rect));
                assert(self.capturing_mouse == step_capture_mouse(pre.capturing_mouse, e));
                assert(self.capturing_keyboard == step_capture_keyboard(pre.capturing_keyboard, e));
                let consumed_pre = old(self).events@.subrange(old(self).pos as int, pre.pos as int);
                let consumed_post = old(self).events@.subrange(
                    old(self).pos as int,
                    pre.pos + 1,
                );
                assert(consumed_post =~= consumed_pre.push(e));
                assert(consumed_post.drop_last() =~= consumed_pre);
                assert(pre.remaining()[0] == e);
                assert(pre.remaining().drop_first() =~= old(self).events@.subrange(
                    pre.pos + 1,
                    old(self).events@.len() as int,
                ));
            }
            self.pos = self.pos + 1;
            match delivered {
                Some(e) => {
                    return Some(e);
                },
                None => {},
            }
        }
    }
}

/// The clicks among a widget-event sequence, in order.
pub open spec fn clicks_of(s: Seq<WidgetEvent>) -> Seq<Click>
    decreases s.len(),
{
    if s.len() == 0 {
        Seq::empty()
    } else {
        let rest = clicks_of(s.drop_first());
        match s[0] {
            WidgetEvent::Click(c) => seq![c] + rest,
            _ => rest,
        }
    }
}

/// The drags among a widget-event sequence, in order.
pub open spec fn drags_of(s: Seq<WidgetEvent>) -> Seq<Drag>
    decreases s.len(),
{
    if s.len() == 0 {
        Seq::empty()
    } else {
        let rest = drags_of(s.drop_first());
        match s[0] {
            WidgetEvent::Drag(d) => seq![d] + rest,
            _ => rest,
        }
    }
}

/// The text entries among a widget-event sequence, in order.
pub open spec fn texts_of(s: Seq<WidgetEvent>) -> Seq<Text>
    decreases s.len(),
{
    if s.len() == 0 {
        Seq::empty()
    } else {
        let rest = texts_of(s.drop_first());
        match s[0] {
            WidgetEvent::Text(t) => seq![t] + rest,
            _ => rest,
        }
    }
}

/// The scrolls among a widget-event sequence, in order.
pub open spec fn scrolls_of(s: Seq<WidgetEvent>) -> Seq<Scroll>
    decreases s.len(),
{
    if s.len() == 0 {
        Seq::empty()
    } else {
        let rest = scrolls_of(s.drop_first());
        match s[0] {
            WidgetEvent::Scroll(sc) => seq![sc] + rest,
            _ => rest,
        }
    }
}

/// The clicks of one button among a click sequence, in order.
pub open spec fn clicks_with_button(s: Seq<Click>, b: MouseButton) -> Seq<Click>
    decreases s.len(),
{
    if s.len() == 0 {
        Seq::empty()
    } else {
        let rest = clicks_with_button(s.drop_first(), b);
        if s[0].button == b {
            seq![s[0]] + rest
        } else {
            rest
        }
    }
}

/// The drags of one button among a drag sequence, in order.
pub open spec fn drags_with_button(s: Seq<Drag>, b: MouseButton) -> Seq<Drag>
    decreases s.len(),
{
    if s.len() == 0 {
        Seq::empty()
    } else {
        let rest = drags_with_button(s.drop_first(), b);
        if s[0].button == b {
            seq![s[0]] + rest
        } else {
            rest
        }
    }
}

impl<'a> Clicks<'a> {
    /// Keep only the clicks of the given button.
    pub fn button(self, button: MouseButton) -> (r: ButtonClicks<'a>)
        ensures
            r.clicks == self,
            r.button == button,
    {
        ButtonClicks { clicks: self, button }
    }

    /// Keep only left-button clicks.
    pub fn left(self) -> (r: ButtonClicks<'a>)
        ensures
            r.clicks == self,
            r.button == MouseButton::Left,
    {
        self.button(MouseButton::Left)
    }

    /// Keep only middle-button clicks.
    pub fn middle(self) -> (r: ButtonClicks<'a>)
        ensures
            r.clicks == self,
            r.button == MouseButton::Middle,
    {
        self.button(MouseButton::Middle)
    }

    /// Keep only right-button clicks.
    pub fn right(self) -> (r: ButtonClicks<'a>)
        ensures
            r.clicks == self,
            r.button == MouseButton::Right,
    {
        self.button(MouseButton::Right)
    }

    /// The next click delivered to the widget, if any is left.
    pub fn next(&mut self) -> (r: Option<Click>)
        requires
            old(self).events.wf(),
        ensures
            final(self).events.wf(),
            final(self).events.same_stream(old(self).events),
            match r {
                None => clicks_of(old(self).events.remaining_route()).len() == 0,
                Some(c) => {
                    &&& clicks_of(old(self).events.remaining_route()).len() > 0
                    &&& c == clicks_of(old(self).events.remaining_route())[0]
                    &&& clicks_of(final(self).events.remaining_route()) == clicks_of(
                        old(self).events.remaining_route(),
                    ).drop_first()
                },
            },
    {
        loop
            invariant
                self.events.wf(),
                self.events.same_stream(old(self).events),
                clicks_of(self.events.remaining_route()) == clicks_of(
                    old(self).events.remaining_route(),
                ),
            decreases self.events.remaining_route().len(),
        {
            let ghost ro = self.events.remaining_route();
            match self.events.next() {
                None => {
                    return None;
                },
                Some(e) => {
                    proof {
                        assert(ro == seq![ro[0]] + ro.drop_first());
                    }
                    match e {
                        WidgetEvent::Click(c) => {
                            return Some(c);
                        },
                        _ => {},
                    }
                },
            }
        }
    }
}

impl<'a> ButtonClicks<'a> {
    /// The next click of this cursor's button, if any is left.
    pub fn next(&mut self) -> (r: Option<Click>)
        requires
            old(self).clicks.events.wf(),
        ensures
            final(self).clicks.events.wf(),
            final(self).clicks.events.same_stream(old(self).clicks.events),
            final(self).button == old(self).button,
            match r {
                None => clicks_with_button(
                    clicks_of(old(self).clicks.events.remaining_route()),
                    old(self).button,
                ).len() == 0,
                Some(c) => {
                    &&& clicks_with_button(
                        clicks_of(old(self).clicks.events.remaining_route()),
                        old(self).button,
                    ).len() > 0
                    &&& c == clicks_with_button(
                        clicks_of(old(self).clicks.events.remaining_route()),
                        old(self).button,
                    )[0]
                    &&& clicks_with_button(
                        clicks_of(final(self).clicks.events.remaining_route()),
                        final(self).button,
                    ) == clicks_with_button(
                        clicks_of(old(self).clicks.events.remaining_route()),
                        old(self).button,
                    ).drop_first()
                },
            },
    {
        loop
            invariant
                self.clicks.events.wf(),
                self.clicks.events.same_stream(old(self).clicks.events),
                self.button == old(self).button,
                clicks_with_button(clicks_of(self.clicks.events.remaining_route()), self.button)
                    == clicks_with_button(
                    clicks_of(old(self).clicks.events.remaining_route()),
                    old(self).button,
                ),
            decreases clicks_of(self.clicks.events.remaining_route()).len(),
        {
            let ghost co = clicks_of(self.clicks.events.remaining_route());
            match self.clicks.next() {
                None => {
                    return None;
                },
                Some(c) => {
                    proof {
                        assert(co == seq![co[0]] + co.drop_first());
                    }
                    if c.button == self.button {
                        return Some(c);
                    }
                },
            }
        }
    }
}

impl<'a> Drags<'a> {
    /// Keep only the drags of the given button.
    pub fn button(self, button: MouseButton) -> (r: ButtonDrags<'a>)
        ensures
            r.drags == self,
            r.button == button,
    {
        ButtonDrags { drags: self, button }
    }

    /// Keep only left-button drags.
    pub fn left(self) -> (r: ButtonDrags<'a>)
        ensures
            r.drags == self,
            r.button == MouseButton::Left,
    {
        self.button(MouseButton::Left)
    }

    /// Keep only middle-button drags.
    pub fn middle(self) -> (r: ButtonDrags<'a>)
        ensures
            r.drags == self,
            r.button == MouseButton::Middle,
    {
        self.button(MouseButton::Middle)
    }

    /// Keep only right-button drags.
    pub fn right(self) -> (r: ButtonDrags<'a>)
        ensures
            r.drags == self,
            r.button == MouseButton::Right,
    {
        self.button(MouseButton::Right)
    }

    /// The next drag delivered to the widget, if any is left.
    pub fn next(&mut self) -> (r: Option<Drag>)
        requires
            old(self).events.wf(),
        ensures
            final(self).events.wf(),
            final(self).events.same_stream(old(self).events),
            match r {
                None => drags_of(old(self).events.remaining_route()).len() == 0,
                Some(d) => {
                    &&& drags_of(old(self).events.remaining_route()).len() > 0
                    &&& d == drags_of(old(self).events.remaining_route())[0]
                    &&& drags_of(final(self).events.remaining_route()) == drags_of(
                        old(self).events.remaining_route(),
                    ).drop_first()
                },
            },
    {
        loop
            invariant
                self.events.wf(),
                self.events.same_stream(old(self).events),
                drags_of(self.events.remaining_route()) == drags_of(
                    old(self).events.remaining_route(),
                ),
            decreases self.events.remaining_route().len(),
        {
            let ghost ro = self.events.remaining_route();
            match self.events.next() {
                None => {
                    return None;
                },
                Some(e) => {
                    proof {
                        assert(ro == seq![ro[0]] + ro.drop_first());
                    }
                    match e {
                        WidgetEvent::Drag(d) => {
                            return Some(d);
                        },
                        _ => {},
                    }
                },
            }
        }
    }
}

impl<'a> ButtonDrags<'a> {
    /// The next drag of this cursor's button, if any is left.
    pub fn next(&mut self) -> (r: Option<Drag>)
        requires
            old(self).drags.events.wf(),
        ensures
            final(self).drags.events.wf(),
            final(self).drags.events.same_stream(old(self).drags.events),
            final(self).button == old(self).button,
            match r {
                None => drags_with_button(
                    drags_of(old(self).drags.events.remaining_route()),
                    old(self).button,
                ).len() == 0,
                Some(d) => {
                    &&& drags_with_button(
                        drags_of(old(self).drags.events.remaining_route()),
                        old(self).button,
                    ).len() > 0
                    &&& d == drags_with_button(
                        drags_of(old(self).drags.events.remaining_route()),
                        old(self).button,
                    )[0]
                    &&& drags_with_button(
                        drags_of(final(self).drags.events.remaining_route()),
                        final(self).button,
                    ) == drags_with_button(
                        drags_of(old(self).drags.events.remaining_route()),
                        old(self).button,
                    ).drop_first()
                },
            },
    {
        loop
            invariant
                self.drags.events.wf(),
                self.drags.events.same_stream(old(self).drags.events),
                self.button == old(self).button,
                drags_with_button(drags_of(self.drags.events.remaining_route()), self.button)
                    == drags_with_button(
                    drags_of(old(self).drags.events.remaining_route()),
                    old(self).button,
                ),
            decreases drags_of(self.drags.events.remaining_route()).len(),
        {
            let ghost dr = drags_of(self.drags.events.remaining_route());
            match self.drags.next() {
                None => {
                    return None;
                },
                Some(d) => {
                    proof {
                        assert(dr == seq![dr[0]] + dr.drop_first());
                    }
                    if d.button == self.button {
                        return Some(d);
                    }
                },
            }
        }
    }
}

impl<'a> Texts<'a> {
    /// The next text entry delivered to the widget, if any is left.
    pub fn next(&mut self) -> (r: Option<Text>)
        requires
            old(self).events.wf(),
        ensures
            final(self).events.wf(),
            final(self).events.same_stream(old(self).events),
            match r {
                None => texts_of(old(self).events.remaining_route()).len() == 0,
                Some(t) => {
                    &&& texts_of(old(self).events.remaining_route()).len() > 0
                    &&& t == texts_of(old(self).events.remaining_route())[0]
                    &&& texts_of(final(self).events.remaining_route()) == texts_of(
                        old(self).events.remaining_route(),
                    ).drop_first()
                },
            },
    {
        loop
            invariant
                self.events.wf(),
                self.events.same_stream(old(self).events),
                texts_of(self.events.remaining_route()) == texts_of(
                    old(self).events.remaining_route(),
                ),
            decreases self.events.remaining_route().len(),
        {
            let ghost ro = self.events.remaining_route();
            match self.events.next() {
                None => {
                    return None;
                },
                Some(e) => {
                    proof {
                        assert(ro == seq![ro[0]] + ro.drop_first());
                    }
                    match e {
                        WidgetEvent::Text(t) => {
                            return Some(t);
                        },
                        _ => {},
                    }
                },
            }
        }
    }
}

impl<'a> Scrolls<'a> {
    /// The next scroll delivered to the widget, if any is left.
    pub fn next(&mut self) -> (r: Option<Scroll>)
        requires
            old(self).events.wf(),
        ensures
            final(self).events.wf(),
            final(self).events.same_stream(old(self).events),
            match r {
                None => scrolls_of(old(self).events.remaining_route()).len() == 0,
                Some(s) => {
                    &&& scrolls_of(old(self).events.remaining_route()).len() > 0
                    &&& s == scrolls_of(old(self).events.remaining_route())[0]
                    &&& scrolls_of(final(self).events.remaining_route()) == scrolls_of(
                        old(self).events.remaining_route(),
                    ).drop_first()
                },
            },
    {
        loop
            invariant
                self.events.wf(),
                self.events.same_stream(old(self).events),
                scrolls_of(self.events.remaining_route()) == scrolls_of(
                    old(self).events.remaining_route(),
                ),
            decreases self.events.remaining_route().len(),
        {
            let ghost ro = self.events.remaining_route();
            match self.events.next() {
                None => {
                    return None;
                },
                Some(e) => {
                    proof {
                        assert(ro == seq![ro[0]] + ro.drop_first());
                    }
                    match e {
                        WidgetEvent::Scroll(s) => {
                            return Some(s);
                        },
                        _ => {},
                    }
                },
            }
        }
    }
}

/// The window resize dimensions among a stream, in order.
pub open spec fn resizes_of_stream(s: Seq<UiEvent>) -> Seq<(i64, i64)>
    decreases s.len(),
{
    if s.len() == 0 {
        Seq::empty()
    } else {
        let rest = resizes_of_stream(s.drop_first());
        match s[0] {
            UiEvent::WindowResized(w, h) => seq![(w, h)] + rest,
            _ => rest,
        }
    }
}

/// The window resize dimensions among a widget-event sequence, in order.
pub open spec fn resizes_of_widget_events(s: Seq<WidgetEvent>) -> Seq<(i64, i64)>
    decreases s.len(),
{
    if s.len() == 0 {
        Seq::empty()
    } else {
        let rest = resizes_of_widget_events(s.drop_first());
        match s[0] {
            WidgetEvent::WindowResized(w, h) => seq![(w, h)] + rest,
            _ => rest,
        }
    }
}

/// Window resizes are broadcast: whatever the widget, its rectangle, and the
/// capture state, the resize events a widget's event sequence carries are
/// exactly the resize events of the stream, in order.
pub proof fn lemma_resize_broadcast(stream: Seq<UiEvent>, idx: usize, rect: Rect)
    ensures
        resizes_of_widget_events(route_spec(stream, idx, rect)) == resizes_of_stream(stream),
    decreases stream.len(),
{
    if stream.len() == 0 {
    } else {
        lemma_resize_broadcast(stream.drop_first(), idx, rect);
        let rest = route_spec(stream.drop_first(), idx, rect);
        match deliver_spec(stream[0], idx, rect) {
            Some(w) => {
                assert((seq![w] + rest).drop_first() =~= rest);
            },
            None => {},
        }
    }
}

/// Two widgets see the same window resizes, whatever their rectangles.
pub proof fn lemma_resize_delivered_identically(
    stream: Seq<UiEvent>,
    idx1: usize,
    rect1: Rect,
    idx2: usize,
    rect2: Rect,
)
    ensures
        resizes_of_widget_events(route_spec(stream, idx1, rect1)) == resizes_of_widget_events(
            route_spec(stream, idx2, rect2),
        ),
{
    lemma_resize_broadcast(stream, idx1, rect1);
    lemma_resize_broadcast(stream, idx2, rect2);
}

} // verus!
