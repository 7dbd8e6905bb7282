use conrod::geom::{Point, Rect};
use conrod::input::widget::Mouse;
use conrod::input::{ButtonMap, ButtonPosition};
use conrod::theme::{Color, Theme};
use conrod::xy_pad::{
    Direction, Edge, IndexSlot, KIND, XYPad, closest_edge, crosshair_offsets, interaction_color,
    label_direction, value_label_directions,
};

fn test_theme() -> Theme {
    Theme {
        shape_color: Color { red: 10, green: 20, blue: 30, alpha: 255 },
        frame_color: Color { red: 1, green: 2, blue: 3, alpha: 255 },
        frame_width: 2,
        label_color: Color { red: 200, green: 200, blue: 200, alpha: 255 },
        font_size_medium: 18,
    }
}

type Pad = XYPad<fn(i64, i64)>;

#[test]
fn new_pad_has_given_values_and_defaults() {
    let pad: Pad = XYPad::new(5, 0, 10, -5, -10, 0);
    assert_eq!((pad.x, pad.min_x, pad.max_x), (5, 0, 10));
    assert_eq!((pad.y, pad.min_y, pad.max_y), (-5, -10, 0));
    assert!(pad.maybe_label.is_none());
    assert!(pad.maybe_react.is_none());
    assert!(pad.enabled);
    assert!(pad.style.maybe_color.is_none());
    assert_eq!(pad.unique_kind(), KIND);
}

#[test]
fn builder_methods_set_overrides() {
    let pad: Pad = XYPad::new(0, 0, 10, 0, 0, 10)
        .line_thickness(7)
        .value_font_size(21)
        .enabled(false)
        .label(String::from("pad"));
    assert_eq!(pad.style.maybe_line_thickness, Some(7));
    assert_eq!(pad.style.maybe_value_font_size, Some(21));
    assert!(!pad.enabled);
    assert_eq!(pad.maybe_label.as_deref(), Some("pad"));
}

#[test]
fn style_getters_fall_back_to_theme() {
    let theme = test_theme();
    let pad: Pad = XYPad::new(0, 0, 10, 0, 0, 10);
    let style = pad.style();
    assert_eq!(style.color(&theme), theme.shape_color);
    assert_eq!(style.frame(&theme), 2);
    assert_eq!(style.frame_color(&theme), theme.frame_color);
    assert_eq!(style.label_color(&theme), theme.label_color);
    assert_eq!(style.label_font_size(&theme), 18);
    assert_eq!(style.value_font_size(&theme), 14);
    assert_eq!(style.line_thickness(&theme), 2);
    let overridden: Pad = XYPad::new(0, 0, 10, 0, 0, 10).frame(9);
    assert_eq!(overridden.style().frame(&theme), 9);
}

#[test]
fn init_state_slots_are_unassigned() {
    let pad: Pad = XYPad::new(0, 0, 10, 0, 0, 10);
    let state = pad.init_state();
    assert!(state.rectangle_idx.maybe_idx.is_none());
    assert!(state.value_label_idx.maybe_idx.is_none());
}

#[test]
fn index_slot_assigns_once() {
    let mut slot = IndexSlot::new();
    assert_eq!(slot.get_or_assign(42), 42);
    assert_eq!(slot.get_or_assign(7), 42);
}

#[test]
fn updated_values_follow_pressed_pointer() {
    let pad: Pad = XYPad::new(0, 0, 100, 0, 0, 100);
    let inner = Rect { l: -50, r: 50, b: -50, t: 50 };
    let mut buttons = ButtonMap::all_up();
    buttons.left = ButtonPosition::Down(Point { x: 0, y: 0 });
    let mouse = Mouse { rect: inner, mouse_abs_xy: Point { x: 0, y: 25 }, buttons: &buttons };
    let (nx, ny) = pad.updated_values(inner, Some(mouse));
    assert_eq!(nx, 50);
    assert_eq!(ny, 75);
}

#[test]
fn updated_values_clamp_pointer_into_inner_rect() {
    let pad: Pad = XYPad::new(0, 0, 100, 0, 0, 100);
    let inner = Rect { l: -50, r: 50, b: -50, t: 50 };
    let mut buttons = ButtonMap::all_up();
    buttons.left = ButtonPosition::Down(Point { x: 0, y: 0 });
    let mouse = Mouse { rect: inner, mouse_abs_xy: Point { x: 999, y: -999 }, buttons: &buttons };
    assert_eq!(pad.updated_values(inner, Some(mouse)), (100, 0));
}

#[test]
fn updated_values_unchanged_without_press() {
    let pad: Pad = XYPad::new(33, 0, 100, 44, 0, 100);
    let inner = Rect { l: -50, r: 50, b: -50, t: 50 };
    let buttons = ButtonMap::all_up();
    let mouse = Mouse { rect: inner, mouse_abs_xy: Point { x: 10, y: 10 }, buttons: &buttons };
    assert_eq!(pad.updated_values(inner, Some(mouse)), (33, 44));
    assert_eq!(pad.updated_values(inner, None), (33, 44));
}

#[test]
fn crosshair_offsets_map_values_onto_half_extents() {
    let inner = Rect { l: -50, r: 50, b: -40, t: 40 };
    let (vx, hy) = crosshair_offsets(0, 0, 100, 100, 0, 100, inner);
    assert_eq!(vx, -50);
    assert_eq!(hy, 40);
    let (vx2, hy2) = crosshair_offsets(50, 0, 100, 50, 0, 100, inner);
    assert_eq!(vx2, 0);
    assert_eq!(hy2, 0);
}

#[test]
fn closest_edge_breaks_ties_toward_end() {
    assert_eq!(closest_edge(0, 10, 2), Edge::Start);
    assert_eq!(closest_edge(0, 10, 8), Edge::End);
    assert_eq!(closest_edge(0, 10, 5), Edge::End);
    assert_eq!(label_direction(Edge::Start), Direction::Forwards);
    assert_eq!(label_direction(Edge::End), Direction::Backwards);
}

#[test]
fn value_label_extends_away_from_closest_edges() {
    let inner = Rect { l: 0, r: 100, b: 0, t: 100 };
    let (dx, dy) = value_label_directions(inner, 10, 90);
    assert_eq!(dx, Direction::Forwards);
    assert_eq!(dy, Direction::Backwards);
}

#[test]
fn interaction_color_brightens_on_capture_and_press() {
    let color = Color { red: 100, green: 100, blue: 100, alpha: 255 };
    let inner = Rect { l: 0, r: 10, b: 0, t: 10 };
    assert_eq!(interaction_color(None, color), color);
    let up = ButtonMap::all_up();
    let hovering = Mouse { rect: inner, mouse_abs_xy: Point { x: 5, y: 5 }, buttons: &up };
    assert_eq!(interaction_color(Some(hovering), color), color.highlighted());
    let mut down = ButtonMap::all_up();
    down.left = ButtonPosition::Down(Point { x: 5, y: 5 });
    let pressing = Mouse { rect: inner, mouse_abs_xy: Point { x: 5, y: 5 }, buttons: &down };
    assert_eq!(interaction_color(Some(pressing), color), color.clicked());
}

#[test]
fn color_adjustments_saturate() {
    let bright = Color { red: 250, green: 240, blue: 10, alpha: 128 };
    let h = bright.highlighted();
    assert_eq!((h.red, h.green, h.blue, h.alpha), (255, 255, 35, 128));
    let c = bright.clicked();
    assert_eq!((c.red, c.green, c.blue, c.alpha), (255, 255, 60, 128));
    assert_eq!(bright.with_alpha(255).alpha, 255);
}
