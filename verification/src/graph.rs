//! Read-only widget graph snapshot: an arena of nodes addressed by stable
//! indices, with depth (parent/child) edges, recursive ancestry queries, and
//! the crop-aware visible-area query.
//!
//! A parent always has a smaller index than its children, which bounds every
//! ancestor walk.

use vstd::prelude::*;
use crate::geom::{Point, Rect};
use crate::theme::{FramedRectangleStyle, ImageStyle, LineStyle, ShapeStyle, TextStyle};

verus! {

/// One line of an already line-broken text: the byte range it covers in the
/// widget's string and its advance width in virtual coordinates.
#[derive(Clone, Copy, PartialEq, Eq, Structural, Debug)]
pub struct LineInfo {
    pub byte_start: usize,
    pub byte_end: usize,
    pub width: i64,
}

/// The part of an image texture to draw.
#[derive(Clone, Copy, PartialEq, Eq, Structural, Debug)]
pub struct TextureArea {
    pub src_rect: Rect,
}

/// Widget-specific state stored in a node, discriminating the widget kind.
/// Kinds the drawing code does not recognise are `Other` and draw nothing.
#[derive(Clone, PartialEq, Debug)]
pub enum WidgetState {
    Rectangle { style: ShapeStyle },
    FramedRectangle { style: FramedRectangleStyle },
    Oval { style: ShapeStyle },
    Polygon { points: Vec<Point>, style: ShapeStyle },
    Line { start: Point, end: Point, style: LineStyle },
    PointPath { points: Vec<Point>, style: LineStyle },
    Text { string: String, line_infos: Vec<LineInfo>, style: TextStyle },
    Image { texture: Option<TextureArea>, style: ImageStyle },
    Other,
}

/// One widget instance: its rectangle, the area its children are laid out in,
/// whether it crops its children, its depth parent, and its state.
#[derive(Clone, PartialEq, Debug)]
pub struct Node {
    pub parent: Option<usize>,
    pub rect: Rect,
    pub kid_area: Rect,
    pub crop_kids: bool,
    pub state: WidgetState,
}

/// A snapshot of the widget graph: slot `i` holds the node with index `i`,
/// or nothing where no widget currently uses that index.
#[derive(Clone, PartialEq, Debug)]
pub struct Graph {
    pub nodes: Vec<Option<Node>>,
}

impl Graph {
    /// Every occupied slot has well-formed rectangles, and its parent, if
    /// any, occupies a slot with a strictly smaller index.
    pub open spec fn wf(self) -> bool {
        forall|i: int|
            0 <= i < self.nodes@.len() ==> match #[trigger] self.nodes@[i] {
                Some(n) => {
                    &&& n.rect.wf()
                    &&& n.kid_area.wf()
                    &&& match n.parent {
                        Some(p) => p < i && self.nodes@[p as int] is Some,
                        None => true,
                    }
                },
                None => true,
            }
    }

    /// The node at `i`, if the index is in range and the slot occupied.
    pub open spec fn widget_spec(self, i: int) -> Option<Node> {
        if 0 <= i < self.nodes@.len() {
            self.nodes@[i]
        } else {
            None
        }
    }

    /// Look a widget up by index; out-of-range indices hold no widget.
    pub fn widget(&self, idx: usize) -> (res: Option<&Node>)
        ensures
            match res {
                Some(n) => self.widget_spec(idx as int) == Some(*n),
                None => self.widget_spec(idx as int) is None,
            },
    {
        if idx < self.nodes.len() {
            match &self.nodes[idx] {
                Some(n) => Some(n),
                None => None,
            }
        } else {
            None
        }
    }

    /// Does a chain of one or more depth edges lead from `a` down to `d`?
    pub open spec fn is_strict_ancestor(self, a: int, d: int) -> bool
        decreases d,
    {
        if 0 <= d < self.nodes@.len() {
            match self.nodes@[d] {
                Some(n) => match n.parent {
                    Some(p) => if p < d {
                        p == a || self.is_strict_ancestor(a, p as int)
                    } else {
                        false
                    },
                    None => false,
                },
                None => false,
            }
        } else {
            false
        }
    }

    /// Walk the depth parent chain of `child` looking for `a`.
    pub fn does_recursive_depth_edge_exist(&self, a: usize, child: usize) -> (res: bool)
        requires
            self.wf(),
        ensures
            res == self.is_strict_ancestor(a as int, child as int),
    {
        let mut cur: usize = child;
        loop
            invariant
                self.wf(),
                self.is_strict_ancestor(a as int, child as int) == self.is_strict_ancestor(
                    a as int,
                    cur as int,
                ),
            decreases cur,
        {
            if cur >= self.nodes.len() {
                return false;
            }
            let p_opt: Option<usize> = match &self.nodes[cur] {
                Some(n) => n.parent,
                None => None,
            };
            match p_opt {
                None => {
                    return false;
                },
                Some(p) => {
                    if p == a {
                        return true;
                    }
                    cur = p;
                },
            }
        }
    }

    /// How many strict ancestors of `i` crop their children.
    pub open spec fn crop_ancestor_count(self, i: int) -> nat
        decreases i,
    {
        if 0 <= i < self.nodes@.len() {
            match self.nodes@[i] {
                Some(n) => match n.parent {
                    Some(p) => if p < i {
                        match self.nodes@[p as int] {
                            Some(pn) => self.crop_ancestor_count(p as int) + if pn.crop_kids {
                                1nat
                            } else {
                                0nat
                            },
                            None => 0,
                        }
                    } else {
                        0
                    },
                    None => 0,
                },
                None => 0,
            }
        } else {
            0
        }
    }

    /// `area`, intersected with the kid area of every cropping strict
    /// ancestor of `i`; `None` once any intersection is empty.
    pub open spec fn cropped_over_ancestors(self, i: int, area: Rect) -> Option<Rect>
        decreases i,
    {
        if 0 <= i < self.nodes@.len() {
            match self.nodes@[i] {
                Some(n) => match n.parent {
                    None => Some(area),
                    Some(p) => if p < i {
                        match self.nodes@[p as int] {
                            Some(pn) => {
                                let next = if pn.crop_kids {
                                    area.overlap_spec(pn.kid_area)
                                } else {
                                    Some(area)
                                };
                                match next {
                                    Some(a2) => self.cropped_over_ancestors(p as int, a2),
                                    None => None,
                                }
                            },
                            None => None,
                        }
                    } else {
                        None
                    },
                },
                None => None,
            }
        } else {
            None
        }
    }

    /// The part of widget `i`'s rectangle left visible by the crops of its
    /// ancestors; `None` when the widget does not exist or is fully cropped.
    pub open spec fn cropped_area_spec(self, i: int) -> Option<Rect> {
        match self.widget_spec(i) {
            Some(n) => self.cropped_over_ancestors(i, n.rect),
            None => None,
        }
    }

    /// Visible-area query: intersect the widget's rectangle with the kid
    /// area of every cropping ancestor, walking up the depth parent chain.
    pub fn cropped_area_of_widget(&self, idx: usize) -> (res: Option<Rect>)
        requires
            self.wf(),
        ensures
            res == self.cropped_area_spec(idx as int),
    {
        let mut area: Rect = match self.widget(idx) {
            Some(n) => n.rect,
            None => {
                return None;
            },
        };
        let mut cur: usize = idx;
        loop
            invariant
                self.wf(),
                self.cropped_area_spec(idx as int) == self.cropped_over_ancestors(
                    cur as int,
                    area,
                ),
            decreases cur,
        {
            if cur >= self.nodes.len() {
                return None;
            }
            let p_opt: Option<usize> = match &self.nodes[cur] {
                Some(n) => n.parent,
                None => {
                    return None;
                },
            };
            match p_opt {
                None => {
                    return Some(area);
                },
                Some(p) => {
                    let crop: Option<Rect> = match &self.nodes[p] {
                        Some(pn) => {
                            if pn.crop_kids {
                                match area.overlap(pn.kid_area) {
                                    Some(a2) => Some(a2),
                                    None => {
                                        return None;
                                    },
                                }
                            } else {
                                Some(area)
                            }
                        },
                        None => {
                            return None;
                        },
                    };
                    match crop {
                        Some(a2) => {
                            area = a2;
                        },
                        None => {
                            return None;
                        },
                    }
                    cur = p;
                },
            }
        }
    }
}

} // verus!
