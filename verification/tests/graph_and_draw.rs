use conrod::clip::{Context, Scissor};
use conrod::draw::{DrawCall, draw_from_graph};
use conrod::geom::{Point, Rect};
use conrod::graph::{Graph, LineInfo, Node, WidgetState};
use conrod::primitives::{Primitive, Segment, TextLine, primitives_of, solid_line_segments, text_line_rects};
use conrod::theme::{Align, Color, FramedRectangleStyle, LineStyle, ShapeStyle, TextStyle, Theme};

fn plain_node(parent: Option<usize>, rect: Rect, crop_kids: bool) -> Node {
    Node { parent, rect, kid_area: rect, crop_kids, state: WidgetState::Other }
}

fn test_theme() -> Theme {
    Theme {
        shape_color: Color { red: 10, green: 20, blue: 30, alpha: 255 },
        frame_color: Color { red: 1, green: 2, blue: 3, alpha: 255 },
        frame_width: 2,
        label_color: Color { red: 200, green: 200, blue: 200, alpha: 255 },
        font_size_medium: 18,
    }
}

fn base_context() -> Context {
    Context { view_w: 200, view_h: 200, viewport: None, scissor: None }
}

#[test]
fn ancestor_query_follows_parent_chain() {
    let window = Rect { l: -100, r: 100, b: -100, t: 100 };
    let g = Graph {
        nodes: vec![
            Some(plain_node(None, window, false)),
            Some(plain_node(Some(0), Rect { l: -50, r: 50, b: -50, t: 50 }, false)),
            Some(plain_node(Some(1), Rect { l: -10, r: 10, b: -10, t: 10 }, false)),
        ],
    };
    assert!(g.does_recursive_depth_edge_exist(0, 2));
    assert!(g.does_recursive_depth_edge_exist(1, 2));
    assert!(g.does_recursive_depth_edge_exist(0, 1));
    assert!(!g.does_recursive_depth_edge_exist(2, 0));
    assert!(!g.does_recursive_depth_edge_exist(2, 2));
}

#[test]
fn cropped_area_intersects_cropping_ancestors() {
    let window = Rect { l: -100, r: 100, b: -100, t: 100 };
    let mut parent = plain_node(Some(0), Rect { l: 0, r: 40, b: 0, t: 40 }, true);
    parent.kid_area = Rect { l: 0, r: 40, b: 0, t: 40 };
    let child = plain_node(Some(1), Rect { l: 30, r: 80, b: 10, t: 20 }, false);
    let g = Graph {
        nodes: vec![Some(plain_node(None, window, false)), Some(parent), Some(child)],
    };
    assert_eq!(g.cropped_area_of_widget(2), Some(Rect { l: 30, r: 40, b: 10, t: 20 }));
}

#[test]
fn fully_cropped_widget_has_no_area() {
    let window = Rect { l: -100, r: 100, b: -100, t: 100 };
    let mut parent = plain_node(Some(0), Rect { l: 0, r: 40, b: 0, t: 40 }, true);
    parent.kid_area = Rect { l: 0, r: 40, b: 0, t: 40 };
    let child = plain_node(Some(1), Rect { l: 50, r: 80, b: 10, t: 20 }, false);
    let g = Graph {
        nodes: vec![Some(plain_node(None, window, false)), Some(parent), Some(child)],
    };
    assert_eq!(g.cropped_area_of_widget(2), None);
}

#[test]
fn empty_graph_draws_nothing() {
    let g = Graph { nodes: vec![] };
    let calls = draw_from_graph(&g, &vec![0, 1, 2], base_context());
    assert!(calls.is_empty());
}

#[test]
fn visible_widgets_dispatch_in_depth_order() {
    let window = Rect { l: -100, r: 100, b: -100, t: 100 };
    let g = Graph {
        nodes: vec![
            Some(plain_node(None, window, false)),
            Some(plain_node(Some(0), Rect { l: -50, r: 50, b: -50, t: 50 }, false)),
            // Entirely outside the window: skipped.
            Some(plain_node(Some(0), Rect { l: 150, r: 180, b: 0, t: 10 }, false)),
        ],
    };
    let calls = draw_from_graph(&g, &vec![0, 1, 2], base_context());
    let widgets: Vec<usize> = calls.iter().map(|c| c.widget).collect();
    assert_eq!(widgets, vec![0, 1]);
    assert_eq!(calls[1].context, base_context());
}

#[test]
fn cropping_parent_clips_child_context() {
    let window = Rect { l: -100, r: 100, b: -100, t: 100 };
    let mut parent = plain_node(Some(0), Rect { l: 0, r: 40, b: 0, t: 40 }, true);
    parent.kid_area = Rect { l: 0, r: 40, b: 0, t: 40 };
    let child = plain_node(Some(1), Rect { l: 10, r: 30, b: 10, t: 30 }, false);
    let g = Graph {
        nodes: vec![Some(plain_node(None, window, false)), Some(parent), Some(child)],
    };
    let calls = draw_from_graph(&g, &vec![0, 1, 2], base_context());
    assert_eq!(calls.len(), 3);
    // The child draws under the parent's kid-area scissor: device image of
    // the kid area in a 200x200 view.
    assert_eq!(calls[2].widget, 2);
    assert_eq!(calls[2].context.scissor, Some(Scissor { x: 100, y: 100, w: 40, h: 40 }));
}

#[test]
fn child_outside_crop_area_is_skipped() {
    let window = Rect { l: -100, r: 100, b: -100, t: 100 };
    let mut parent = plain_node(Some(0), Rect { l: 0, r: 40, b: 0, t: 40 }, true);
    parent.kid_area = Rect { l: 0, r: 40, b: 0, t: 40 };
    let child = plain_node(Some(1), Rect { l: 50, r: 80, b: 10, t: 20 }, false);
    let g = Graph {
        nodes: vec![Some(plain_node(None, window, false)), Some(parent), Some(child)],
    };
    let calls = draw_from_graph(&g, &vec![0, 1, 2], base_context());
    let widgets: Vec<usize> = calls.iter().map(|c| c.widget).collect();
    assert_eq!(widgets, vec![0, 1]);
}

#[test]
fn sibling_after_cropped_subtree_pops_the_stack() {
    let window = Rect { l: -100, r: 100, b: -100, t: 100 };
    let mut parent = plain_node(Some(0), Rect { l: 0, r: 40, b: 0, t: 40 }, true);
    parent.kid_area = Rect { l: 0, r: 40, b: 0, t: 40 };
    let child = plain_node(Some(1), Rect { l: 10, r: 30, b: 10, t: 30 }, false);
    let sibling = plain_node(Some(0), Rect { l: -90, r: -50, b: -90, t: -50 }, false);
    let g = Graph {
        nodes: vec![
            Some(plain_node(None, window, false)),
            Some(parent),
            Some(child),
            Some(sibling),
        ],
    };
    let calls = draw_from_graph(&g, &vec![0, 1, 2, 3], base_context());
    assert_eq!(calls.len(), 4);
    // The sibling is no descendant of the cropping widget, so it draws with
    // the base context again.
    assert_eq!(calls[3].widget, 3);
    assert_eq!(calls[3].context, base_context());
}

#[test]
fn rectangle_fill_resolves_to_one_primitive() {
    let theme = test_theme();
    let node = Node {
        parent: None,
        rect: Rect { l: 0, r: 10, b: 0, t: 10 },
        kid_area: Rect { l: 0, r: 10, b: 0, t: 10 },
        crop_kids: false,
        state: WidgetState::Rectangle { style: ShapeStyle::Fill(None) },
    };
    let prims = primitives_of(&node, &theme);
    assert_eq!(prims.len(), 1);
    match &prims[0] {
        Primitive::Rectangle { rect, color } => {
            assert_eq!(*rect, node.rect);
            assert_eq!(*color, theme.shape_color);
        },
        other => panic!("unexpected primitive {:?}", other),
    }
}

#[test]
fn rectangle_outline_strokes_corner_loop() {
    let theme = test_theme();
    let node = Node {
        parent: None,
        rect: Rect { l: 0, r: 10, b: 0, t: 20 },
        kid_area: Rect { l: 0, r: 10, b: 0, t: 20 },
        crop_kids: false,
        state: WidgetState::Rectangle {
            style: ShapeStyle::Outline(LineStyle {
                maybe_pattern: None,
                maybe_color: None,
                maybe_thickness: Some(4),
                maybe_cap: None,
            }),
        },
    };
    let prims = primitives_of(&node, &theme);
    assert_eq!(prims.len(), 1);
    match &prims[0] {
        Primitive::Lines { points, stroke } => {
            assert_eq!(points.len(), 5);
            assert_eq!(points[0], Point { x: 0, y: 0 });
            assert_eq!(points[1], Point { x: 0, y: 20 });
            assert_eq!(points[2], Point { x: 10, y: 20 });
            assert_eq!(points[3], Point { x: 10, y: 0 });
            assert_eq!(points[4], Point { x: 0, y: 0 });
            assert_eq!(stroke.thickness, 4);
            assert_eq!(stroke.color, theme.shape_color);
        },
        other => panic!("unexpected primitive {:?}", other),
    }
}

#[test]
fn framed_rectangle_draws_frame_under_inner() {
    let theme = test_theme();
    let node = Node {
        parent: None,
        rect: Rect { l: 0, r: 20, b: 0, t: 20 },
        kid_area: Rect { l: 0, r: 20, b: 0, t: 20 },
        crop_kids: false,
        state: WidgetState::FramedRectangle {
            style: FramedRectangleStyle {
                maybe_color: None,
                maybe_frame: Some(3),
                maybe_frame_color: None,
            },
        },
    };
    let prims = primitives_of(&node, &theme);
    assert_eq!(prims.len(), 2);
    match &prims[0] {
        Primitive::Rectangle { rect, color } => {
            assert_eq!(*rect, node.rect);
            assert_eq!(*color, theme.frame_color);
        },
        other => panic!("unexpected primitive {:?}", other),
    }
    match &prims[1] {
        Primitive::Rectangle { rect, color } => {
            assert_eq!(*rect, Rect { l: 3, r: 17, b: 3, t: 17 });
            assert_eq!(*color, theme.shape_color);
        },
        other => panic!("unexpected primitive {:?}", other),
    }
}

#[test]
fn framed_rectangle_without_frame_draws_inner_only() {
    let theme = test_theme();
    let node = Node {
        parent: None,
        rect: Rect { l: 0, r: 20, b: 0, t: 20 },
        kid_area: Rect { l: 0, r: 20, b: 0, t: 20 },
        crop_kids: false,
        state: WidgetState::FramedRectangle {
            style: FramedRectangleStyle {
                maybe_color: None,
                maybe_frame: Some(0),
                maybe_frame_color: None,
            },
        },
    };
    let prims = primitives_of(&node, &theme);
    assert_eq!(prims.len(), 1);
}

#[test]
fn unknown_kind_draws_nothing() {
    let theme = test_theme();
    let node = plain_node(None, Rect { l: 0, r: 10, b: 0, t: 10 }, false);
    assert!(primitives_of(&node, &theme).is_empty());
}

#[test]
fn line_widget_strokes_endpoints() {
    let theme = test_theme();
    let node = Node {
        parent: None,
        rect: Rect { l: 0, r: 10, b: 0, t: 10 },
        kid_area: Rect { l: 0, r: 10, b: 0, t: 10 },
        crop_kids: false,
        state: WidgetState::Line {
            start: Point { x: 1, y: 2 },
            end: Point { x: 3, y: 4 },
            style: LineStyle {
                maybe_pattern: None,
                maybe_color: None,
                maybe_thickness: None,
                maybe_cap: None,
            },
        },
    };
    let prims = primitives_of(&node, &theme);
    match &prims[0] {
        Primitive::Lines { points, stroke } => {
            assert_eq!(points.as_slice(), &[Point { x: 1, y: 2 }, Point { x: 3, y: 4 }]);
            assert_eq!(stroke.thickness, 1);
        },
        other => panic!("unexpected primitive {:?}", other),
    }
}

#[test]
fn solid_segments_pair_consecutive_points() {
    let points = vec![
        Point { x: 0, y: 0 },
        Point { x: 1, y: 1 },
        Point { x: 2, y: 0 },
    ];
    let segs = solid_line_segments(&points);
    assert_eq!(
        segs.as_slice(),
        &[
            Segment { start: Point { x: 0, y: 0 }, end: Point { x: 1, y: 1 } },
            Segment { start: Point { x: 1, y: 1 }, end: Point { x: 2, y: 0 } },
        ]
    );
    assert!(solid_line_segments(&vec![]).is_empty());
    assert!(solid_line_segments(&vec![Point { x: 5, y: 5 }]).is_empty());
}

#[test]
fn text_lines_stack_downward_from_top() {
    let infos = vec![
        LineInfo { byte_start: 0, byte_end: 5, width: 50 },
        LineInfo { byte_start: 6, byte_end: 9, width: 30 },
    ];
    let rect = Rect { l: 0, r: 100, b: 0, t: 100 };
    let lines = text_line_rects(&infos, 10, rect, Align::Start, 2);
    assert_eq!(lines.len(), 2);
    assert_eq!(lines[0], TextLine { byte_start: 0, byte_end: 5, rect: Rect { l: 0, r: 50, b: 90, t: 100 } });
    assert_eq!(lines[1], TextLine { byte_start: 6, byte_end: 9, rect: Rect { l: 0, r: 30, b: 78, t: 88 } });
}

#[test]
fn text_lines_align_middle_and_end() {
    let infos = vec![LineInfo { byte_start: 0, byte_end: 4, width: 40 }];
    let rect = Rect { l: 0, r: 100, b: 0, t: 100 };
    let mid = text_line_rects(&infos, 10, rect, Align::Middle, 0);
    assert_eq!(mid[0].rect.l, 30);
    assert_eq!(mid[0].rect.r, 70);
    let end = text_line_rects(&infos, 10, rect, Align::End, 0);
    assert_eq!(end[0].rect.l, 60);
    assert_eq!(end[0].rect.r, 100);
}

#[test]
fn text_widget_resolves_to_positioned_lines() {
    let theme = test_theme();
    let node = Node {
        parent: None,
        rect: Rect { l: 0, r: 100, b: 0, t: 100 },
        kid_area: Rect { l: 0, r: 100, b: 0, t: 100 },
        crop_kids: false,
        state: WidgetState::Text {
            string: String::from("hello"),
            line_infos: vec![LineInfo { byte_start: 0, byte_end: 5, width: 50 }],
            style: TextStyle {
                maybe_font_size: None,
                maybe_color: None,
                maybe_line_spacing: None,
                maybe_x_align: None,
            },
        },
    };
    let prims = primitives_of(&node, &theme);
    match &prims[0] {
        Primitive::Text { color, font_size, lines } => {
            assert_eq!(*color, theme.label_color);
            assert_eq!(*font_size, 18);
            assert_eq!(lines.len(), 1);
            assert_eq!(lines[0].rect.t, 100);
            assert_eq!(lines[0].rect.b, 82);
        },
        other => panic!("unexpected primitive {:?}", other),
    }
}

#[test]
fn draw_calls_carry_copyable_data() {
    let c = DrawCall { widget: 3, context: base_context() };
    let d = c;
    assert_eq!(c, d);
}
