//! The depth-ordered, crop-aware drawing traversal.
//!
//! Walking the depth order back to front, the traversal keeps a stack of
//! active clip contexts, one per crop-owning ancestor of the widget currently
//! visited. Entries whose owner is no longer an ancestor are popped; a
//! visible widget is dispatched with the top-of-stack context; a widget that
//! crops its children pushes the context cropped to its kid area.

use vstd::prelude::*;
use crate::clip::{Context, crop_context, crop_context_spec};
use crate::geom::Rect;
use crate::graph::Graph;

verus! {

/// One dispatch of the traversal: draw the widget with the given context.
#[derive(Clone, Copy, PartialEq, Eq, Structural, Debug)]
pub struct DrawCall {
    pub widget: usize,
    pub context: Context,
}

/// Pop stack entries until the top entry's owner is a strict ancestor of `i`.
pub open spec fn unwind_spec(g: Graph, stack: Seq<(usize, Context)>, i: int) -> Seq<
    (usize, Context),
>
    decreases stack.len(),
{
    if stack.len() == 0 {
        stack
    } else if g.is_strict_ancestor(stack.last().0 as int, i) {
        stack
    } else {
        unwind_spec(g, stack.drop_last(), i)
    }
}

/// A widget is visible when its rectangle overlaps the window rectangle and
/// the crop-aware visible-area query leaves something of it.
pub open spec fn visible_spec(g: Graph, window_rect: Rect, i: int) -> bool {
    match g.widget_spec(i) {
        Some(n) => n.rect.overlap_spec(window_rect) is Some && g.cropped_area_spec(i) is Some,
        None => false,
    }
}

/// The clip stack and the dispatched draw calls after traversing the first
/// `k` entries of the depth order.
pub open spec fn traverse_spec(
    g: Graph,
    order: Seq<usize>,
    base: Context,
    window_rect: Rect,
    k: int,
) -> (Seq<(usize, Context)>, Seq<DrawCall>)
    decreases k,
{
    if k <= 0 || k > order.len() {
        (Seq::empty(), Seq::empty())
    } else {
        let prev = traverse_spec(g, order, base, window_rect, k - 1);
        let stack = prev.0;
        let calls = prev.1;
        let i = order[k - 1];
        match g.widget_spec(i as int) {
            None => (stack, calls),
            Some(n) => {
                let s1 = unwind_spec(g, stack, i as int);
                let ctx = if s1.len() == 0 {
                    base
                } else {
                    s1.last().1
                };
                let calls2 = if visible_spec(g, window_rect, i as int) {
                    calls.push(DrawCall { widget: i, context: ctx })
                } else {
                    calls
                };
                let s2 = if n.crop_kids {
                    s1.push((i, crop_context_spec(ctx, n.kid_area)))
                } else {
                    s1
                };
                (s2, calls2)
            },
        }
    }
}

/// Walk the depth order and dispatch every visible widget with the clip
/// context its crop-owning ancestors dictate. With no window widget at index
/// zero there are no widgets at all and nothing is drawn.
pub fn draw_from_graph(g: &Graph, depth_order: &Vec<usize>, base: Context) -> (res: Vec<DrawCall>)
    requires
        g.wf(),
        base.wf(),
    ensures
        match g.widget_spec(0) {
            None => res@ == Seq::<DrawCall>::empty(),
            Some(w) => res@ == traverse_spec(
                *g,
                depth_order@,
                base,
                w.rect,
                depth_order@.len() as int,
            ).1,
        },
{
    let window_rect: Rect = match g.widget(0) {
        Some(w) => w.rect,
        None => {
            return Vec::new();
        },
    };
    let mut res: Vec<DrawCall> = Vec::new();
    let mut stack: Vec<(usize, Context)> = Vec::new();
    let mut k: usize = 0;
    while k < depth_order.len()
        invariant
            g.wf(),
            base.wf(),
            k <= depth_order@.len(),
            g.widget_spec(0) matches Some(w) && w.rect == window_rect,
            (stack@, res@) == traverse_spec(*g, depth_order@, base, window_rect, k as int),
            forall|j: int| 0 <= j < stack@.len() ==> (#[trigger] stack@[j]).1.wf(),
        decreases depth_order@.len() - k,
    {
        let i = depth_order[k];
        match g.widget(i) {
            None => {},
            Some(node) => {
                let node_rect = node.rect;
                let node_kid_area = node.kid_area;
                let node_crop = node.crop_kids;
                let ghost s0 = stack@;
                while stack.len() > 0 && !g.does_recursive_depth_edge_exist(
                    stack[stack.len() - 1].0,
                    i,
                )
                    invariant
                        g.wf(),
                        unwind_spec(*g, s0, i as int) == unwind_spec(*g, stack@, i as int),
                        forall|j: int| 0 <= j < stack@.len() ==> (#[trigger] stack@[j]).1.wf(),
                    decreases stack@.len(),
                {
                    stack.pop();
                }
                proof {
                    assert(unwind_spec(*g, stack@, i as int) == stack@);
                }
                let ctx: Context = if stack.len() == 0 {
                    base
                } else {
                    stack[stack.len() - 1].1
                };
                let vis: bool = match node_rect.overlap(window_rect) {
                    Some(_) => g.cropped_area_of_widget(i).is_some(),
                    None => false,
                };
                if vis {
                    res.push(DrawCall { widget: i, context: ctx });
                }
                if node_crop {
                    let cropped = crop_context(&ctx, node_kid_area);
                    stack.push((i, cropped));
                }
            },
        }
        k = k + 1;
    }
    res
}

/// Every stack entry owns a cropping widget, and each entry's owner is a
/// strict ancestor of the next entry's owner.
pub open spec fn crop_chain(g: Graph, stack: Seq<(usize, Context)>) -> bool {
    &&& forall|j: int|
        0 <= j < stack.len() ==> match g.widget_spec((#[trigger] stack[j]).0 as int) {
            Some(n) => n.crop_kids,
            None => false,
        }
    &&& forall|j: int|
        0 <= j < stack.len() - 1 ==> g.is_strict_ancestor(
            (#[trigger] stack[j]).0 as int,
            stack[j + 1].0 as int,
        )
}

/// A chain of crop-owning widgets, each an ancestor of the next and the last
/// an ancestor of `i`, is no longer than `i`'s count of cropping ancestors.
proof fn lemma_crop_chain_len(g: Graph, stack: Seq<(usize, Context)>, i: int)
    requires
        g.wf(),
        crop_chain(g, stack),
        stack.len() > 0 ==> g.is_strict_ancestor(stack.last().0 as int, i),
    ensures
        stack.len() <= g.crop_ancestor_count(i),
    decreases (if i >= 0 {
        i
    } else {
        0
    }),
{
    if stack.len() > 0 {
        let a = stack.last().0 as int;
        let n = g.nodes@[i].unwrap();
        let p = n.parent.unwrap() as int;
        let pn = g.nodes@[p].unwrap();
        assert(g.crop_ancestor_count(i) == g.crop_ancestor_count(p) + if pn.crop_kids {
            1nat
        } else {
            0nat
        });
        if a == p {
            assert(pn.crop_kids);
            let s2 = stack.drop_last();
            assert(crop_chain(g, s2)) by {
                assert(forall|j: int| 0 <= j < s2.len() ==> s2[j] == stack[j]);
            }
            if s2.len() > 0 {
                assert(g.is_strict_ancestor(s2.last().0 as int, p)) by {
                    assert(s2.last() == stack[stack.len() - 2]);
                }
            }
            lemma_crop_chain_len(g, s2, p);
        } else {
            assert(g.is_strict_ancestor(a, p));
            lemma_crop_chain_len(g, stack, p);
        }
    }
}

/// Unwinding preserves the chain shape, and afterwards the top entry's owner
/// (when any entry is left) is a strict ancestor of `i`.
proof fn lemma_unwind_props(g: Graph, stack: Seq<(usize, Context)>, i: int)
    requires
        g.wf(),
        crop_chain(g, stack),
    ensures
        crop_chain(g, unwind_spec(g, stack, i)),
        unwind_spec(g, stack, i).len() > 0 ==> g.is_strict_ancestor(
            unwind_spec(g, stack, i).last().0 as int,
            i,
        ),
    decreases stack.len(),
{
    if stack.len() == 0 {
    } else if g.is_strict_ancestor(stack.last().0 as int, i) {
    } else {
        let s2 = stack.drop_last();
        assert(crop_chain(g, s2)) by {
            assert(forall|j: int| 0 <= j < s2.len() ==> s2[j] == stack[j]);
        }
        lemma_unwind_props(g, s2, i);
    }
}

/// The clip stack of every traversal prefix is a crop chain.
proof fn lemma_traverse_chain(g: Graph, order: Seq<usize>, base: Context, window_rect: Rect, k: int)
    requires
        g.wf(),
    ensures
        crop_chain(g, traverse_spec(g, order, base, window_rect, k).0),
    decreases (if k >= 0 {
        k
    } else {
        0
    }),
{
    if k <= 0 || k > order.len() {
    } else {
        lemma_traverse_chain(g, order, base, window_rect, k - 1);
        let stack = traverse_spec(g, order, base, window_rect, k - 1).0;
        let i = order[k - 1];
        match g.widget_spec(i as int) {
            None => {},
            Some(n) => {
                lemma_unwind_props(g, stack, i as int);
                let s1 = unwind_spec(g, stack, i as int);
                if n.crop_kids {
                    let ctx = if s1.len() == 0 {
                        base
                    } else {
                        s1.last().1
                    };
                    let s2 = s1.push((i, crop_context_spec(ctx, n.kid_area)));
                    assert(crop_chain(g, s2)) by {
                        assert(forall|j: int| 0 <= j < s1.len() ==> s2[j] == s1[j]);
                        assert(s2[s2.len() - 1].0 == i);
                        assert(g.widget_spec(i as int) == Some(n));
                        if s1.len() > 0 {
                            assert(g.is_strict_ancestor(
                                s2[s2.len() - 2].0 as int,
                                s2[s2.len() - 1].0 as int,
                            )) by {
                                assert(s2[s2.len() - 2] == s1.last());
                            }
                        }
                    }
                }
            },
        }
    }
}

/// Shrinking the starting area preserves an empty crop result: if `area`
/// misses the kid area of the cropping ancestor `p` of `i`, the ancestor walk
/// from `i` ends empty.
proof fn lemma_crop_walk_empty(g: Graph, p: int, i: int, area: Rect)
    requires
        g.wf(),
        g.is_strict_ancestor(p, i),
        g.widget_spec(p) matches Some(pn) && pn.crop_kids && area.overlap_spec(pn.kid_area)
            is None,
    ensures
        g.cropped_over_ancestors(i, area) is None,
    decreases i,
{
    let n = g.nodes@[i].unwrap();
    let q = n.parent.unwrap() as int;
    let qn = g.nodes@[q].unwrap();
    if q == p {
    } else {
        if qn.crop_kids {
            match area.overlap_spec(qn.kid_area) {
                Some(a2) => {
                    lemma_crop_walk_empty(g, p, q, a2);
                },
                None => {},
            }
        } else {
            lemma_crop_walk_empty(g, p, q, area);
        }
    }
}

/// A widget whose rectangle lies entirely outside the kid area of one of its
/// cropping ancestors has an empty visible area, so it is invisible whatever
/// the window rectangle: the traversal skips all such descendants.
pub proof fn lemma_offscreen_crop_hides_descendants(g: Graph, p: int, c: int)
    requires
        g.wf(),
        g.is_strict_ancestor(p, c),
        g.widget_spec(p) matches Some(pn) && pn.crop_kids,
        g.widget_spec(c) matches Some(cn) && cn.rect.overlap_spec(
            g.widget_spec(p).unwrap().kid_area,
        ) is None,
    ensures
        g.cropped_area_spec(c) is None,
        forall|window_rect: Rect| !visible_spec(g, window_rect, c),
{
    let cn = g.widget_spec(c).unwrap();
    lemma_crop_walk_empty(g, p, c, cn.rect);
}

/// At any traversal point, the clip stack depth never exceeds the number of
/// crop-owning ancestors of the widget currently visited: when the `k`th
/// widget of the depth order is looked at, the stack left after unwinding
/// has at most `crop_ancestor_count` entries.
pub proof fn lemma_clip_stack_depth(
    g: Graph,
    order: Seq<usize>,
    base: Context,
    window_rect: Rect,
    k: int,
)
    requires
        g.wf(),
        0 <= k < order.len(),
    ensures
        unwind_spec(g, traverse_spec(g, order, base, window_rect, k).0, order[k] as int).len()
            <= g.crop_ancestor_count(order[k] as int),
{
    let stack = traverse_spec(g, order, base, window_rect, k).0;
    lemma_traverse_chain(g, order, base, window_rect, k);
    lemma_unwind_props(g, stack, order[k] as int);
    lemma_crop_chain_len(g, unwind_spec(g, stack, order[k] as int), order[k] as int);
}

} // verus!
