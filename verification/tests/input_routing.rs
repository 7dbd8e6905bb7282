use conrod::events::{Button, Click, Drag, MouseButton, Press, Release, Scroll, Text, UiEvent, WidgetEvent};
use conrod::geom::{Point, Rect};
use conrod::input::{ButtonMap, ButtonPosition, Global, MouseState, State};
use conrod::input::widget::Widget;

fn idle_state() -> State {
    State {
        mouse: MouseState { xy: Point { x: 0, y: 0 }, buttons: ButtonMap::all_up() },
        widget_capturing_mouse: None,
        widget_capturing_keyboard: None,
    }
}

fn global_with(events: Vec<UiEvent>) -> Global {
    Global { events, start: idle_state(), current: idle_state() }
}

fn centered_rect() -> Rect {
    Rect { l: -10, r: 10, b: -10, t: 10 }
}

fn press_left(at: Point) -> Press {
    Press { button: Button::Mouse(MouseButton::Left, at) }
}

fn release_left(at: Point) -> Release {
    Release { button: Button::Mouse(MouseButton::Left, at) }
}

#[test]
fn capture_press_release_arrive_in_order() {
    let global = global_with(vec![
        UiEvent::WidgetCapturesMouse(1),
        UiEvent::Press(Some(1), press_left(Point { x: 4, y: 6 })),
        UiEvent::Release(Some(1), release_left(Point { x: 4, y: 6 })),
    ]);
    let widget = Widget::for_widget(1, centered_rect(), &global);
    let mut events = widget.events();
    assert_eq!(events.next(), Some(WidgetEvent::CapturesMouse));
    // The rectangle is centred on the origin, so relative == absolute here.
    assert_eq!(
        events.next(),
        Some(WidgetEvent::Press(press_left(Point { x: 4, y: 6 })))
    );
    assert_eq!(
        events.next(),
        Some(WidgetEvent::Release(release_left(Point { x: 4, y: 6 })))
    );
    assert_eq!(events.next(), None);
}

#[test]
fn clicks_are_projected_not_inferred() {
    // A press/release pair alone yields no click: the router only projects
    // click events the producing layer has already synthesised.
    let global = global_with(vec![
        UiEvent::WidgetCapturesMouse(1),
        UiEvent::Press(Some(1), press_left(Point { x: 0, y: 0 })),
        UiEvent::Release(Some(1), release_left(Point { x: 0, y: 0 })),
    ]);
    let widget = Widget::for_widget(1, centered_rect(), &global);
    let mut clicks = widget.clicks();
    assert_eq!(clicks.next(), None);

    let global2 = global_with(vec![
        UiEvent::Press(Some(1), press_left(Point { x: 0, y: 0 })),
        UiEvent::Release(Some(1), release_left(Point { x: 0, y: 0 })),
        UiEvent::Click(Some(1), Click { button: MouseButton::Left, xy: Point { x: 0, y: 0 } }),
    ]);
    let widget2 = Widget::for_widget(1, centered_rect(), &global2);
    let mut clicks2 = widget2.clicks();
    assert_eq!(
        clicks2.next(),
        Some(Click { button: MouseButton::Left, xy: Point { x: 0, y: 0 } })
    );
    assert_eq!(clicks2.next(), None);
}

#[test]
fn events_of_other_widgets_are_dropped() {
    let global = global_with(vec![
        UiEvent::WidgetCapturesMouse(2),
        UiEvent::Press(Some(2), press_left(Point { x: 1, y: 1 })),
        UiEvent::Scroll(Some(1), Scroll { x: 0, y: 5 }),
    ]);
    let widget = Widget::for_widget(1, centered_rect(), &global);
    let mut events = widget.events();
    assert_eq!(events.next(), Some(WidgetEvent::Scroll(Scroll { x: 0, y: 5 })));
    assert_eq!(events.next(), None);
}

#[test]
fn positional_payloads_become_relative_to_center() {
    // Rectangle centred on (5, 5).
    let rect = Rect { l: 0, r: 10, b: 0, t: 10 };
    let global = global_with(vec![
        UiEvent::Click(Some(1), Click { button: MouseButton::Left, xy: Point { x: 10, y: 10 } }),
        UiEvent::Drag(
            Some(1),
            Drag {
                button: MouseButton::Left,
                origin: Point { x: 5, y: 5 },
                from: Point { x: 6, y: 6 },
                to: Point { x: 9, y: 9 },
            },
        ),
    ]);
    let widget = Widget::for_widget(1, rect, &global);
    let mut events = widget.events();
    assert_eq!(
        events.next(),
        Some(WidgetEvent::Click(Click { button: MouseButton::Left, xy: Point { x: 5, y: 5 } }))
    );
    assert_eq!(
        events.next(),
        Some(WidgetEvent::Drag(Drag {
            button: MouseButton::Left,
            origin: Point { x: 0, y: 0 },
            from: Point { x: 1, y: 1 },
            to: Point { x: 4, y: 4 },
        }))
    );
}

#[test]
fn resize_is_broadcast_to_every_widget() {
    let mut capturing = idle_state();
    capturing.widget_capturing_mouse = Some(2);
    capturing.widget_capturing_keyboard = Some(2);
    let events = vec![
        UiEvent::WidgetCapturesMouse(2),
        UiEvent::WindowResized(800, 600),
        UiEvent::Press(Some(2), press_left(Point { x: 0, y: 0 })),
        UiEvent::WindowResized(640, 480),
    ];
    let with_capture = Global { events: events.clone(), start: capturing, current: capturing };
    let without_capture = global_with(events);

    let mut resizes_seen: Vec<Vec<(i64, i64)>> = Vec::new();
    for (global, idx) in [(&with_capture, 1usize), (&without_capture, 1), (&with_capture, 3)] {
        let widget = Widget::for_widget(idx, centered_rect(), global);
        let mut events = widget.events();
        let mut seen = Vec::new();
        while let Some(e) = events.next() {
            if let WidgetEvent::WindowResized(w, h) = e {
                seen.push((w, h));
            }
        }
        resizes_seen.push(seen);
    }
    assert_eq!(resizes_seen[0], vec![(800, 600), (640, 480)]);
    assert_eq!(resizes_seen[0], resizes_seen[1]);
    assert_eq!(resizes_seen[0], resizes_seen[2]);
}

#[test]
fn mouse_absent_when_captured_by_another_widget() {
    let mut state = idle_state();
    state.widget_capturing_mouse = Some(2);
    let global = Global { events: vec![], start: state, current: state };
    let widget = Widget::for_widget(1, centered_rect(), &global);
    assert!(widget.mouse().is_none());
}

#[test]
fn mouse_present_for_capturing_widget() {
    let mut state = idle_state();
    state.widget_capturing_mouse = Some(1);
    state.mouse.xy = Point { x: 7, y: 3 };
    state.mouse.buttons.left = ButtonPosition::Down(Point { x: 7, y: 3 });
    let global = Global { events: vec![], start: idle_state(), current: state };
    // Rectangle centred on (5, 5).
    let widget = Widget::for_widget(1, Rect { l: 0, r: 10, b: 0, t: 10 }, &global);
    let mouse = widget.mouse().unwrap();
    assert_eq!(mouse.abs_xy(), Point { x: 7, y: 3 });
    assert_eq!(mouse.rel_xy(), Point { x: 2, y: -2 });
    assert!(mouse.is_over());
    assert!(mouse.buttons.left().is_down());
}

#[test]
fn button_clicks_filter_by_button() {
    let left = Click { button: MouseButton::Left, xy: Point { x: 0, y: 0 } };
    let right = Click { button: MouseButton::Right, xy: Point { x: 1, y: 1 } };
    let global = global_with(vec![
        UiEvent::Click(Some(1), left),
        UiEvent::Click(Some(1), right),
        UiEvent::Click(Some(1), left),
    ]);
    let widget = Widget::for_widget(1, centered_rect(), &global);
    let mut lefts = widget.clicks().left();
    assert_eq!(lefts.next(), Some(left));
    assert_eq!(lefts.next(), Some(left));
    assert_eq!(lefts.next(), None);
    let mut rights = widget.clicks().right();
    assert_eq!(rights.next(), Some(right));
    assert_eq!(rights.next(), None);
    let mut middles = widget.clicks().middle();
    assert_eq!(middles.next(), None);
}

#[test]
fn button_drags_filter_by_button() {
    let ldrag = Drag {
        button: MouseButton::Left,
        origin: Point { x: 0, y: 0 },
        from: Point { x: 0, y: 0 },
        to: Point { x: 2, y: 2 },
    };
    let rdrag = Drag { button: MouseButton::Right, ..ldrag };
    let global = global_with(vec![
        UiEvent::Drag(Some(1), ldrag),
        UiEvent::Drag(Some(1), rdrag),
    ]);
    let widget = Widget::for_widget(1, centered_rect(), &global);
    let mut drags = widget.drags();
    assert_eq!(drags.next(), Some(ldrag));
    assert_eq!(drags.next(), Some(rdrag));
    assert_eq!(drags.next(), None);
    let mut lefts = widget.drags().left();
    assert_eq!(lefts.next(), Some(ldrag));
    assert_eq!(lefts.next(), None);
    let mut rights = widget.drags().button(MouseButton::Right);
    assert_eq!(rights.next(), Some(rdrag));
    assert_eq!(rights.next(), None);
}

#[test]
fn texts_and_scrolls_pass_payloads_through() {
    let global = global_with(vec![
        UiEvent::Text(Some(1), Text { string: String::from("hi") }),
        UiEvent::Text(Some(2), Text { string: String::from("other") }),
        UiEvent::Scroll(Some(1), Scroll { x: 3, y: -4 }),
    ]);
    let widget = Widget::for_widget(1, centered_rect(), &global);
    let mut texts = widget.texts();
    assert_eq!(texts.next(), Some(Text { string: String::from("hi") }));
    assert_eq!(texts.next(), None);
    let mut scrolls = widget.scrolls();
    assert_eq!(scrolls.next(), Some(Scroll { x: 3, y: -4 }));
    assert_eq!(scrolls.next(), None);
}

#[test]
fn keyboard_capture_events_delivered_to_target_only() {
    let global = global_with(vec![
        UiEvent::WidgetCapturesKeyboard(1),
        UiEvent::WidgetCapturesKeyboard(2),
        UiEvent::WidgetUncapturesKeyboard(2),
        UiEvent::WidgetUncapturesMouse(1),
    ]);
    let widget = Widget::for_widget(1, centered_rect(), &global);
    let mut events = widget.events();
    assert_eq!(events.next(), Some(WidgetEvent::CapturesKeyboard));
    assert_eq!(events.next(), Some(WidgetEvent::UncapturesMouse));
    assert_eq!(events.next(), None);
}

#[test]
fn fresh_cursor_rescans_from_stream_start() {
    let global = global_with(vec![UiEvent::Scroll(Some(1), Scroll { x: 1, y: 1 })]);
    let widget = Widget::for_widget(1, centered_rect(), &global);
    let mut first = widget.events();
    assert!(first.next().is_some());
    assert!(first.next().is_none());
    let mut second = widget.events();
    assert!(second.next().is_some());
}
