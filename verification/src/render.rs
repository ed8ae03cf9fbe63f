//! The scene renderer's verified half: a depth-first pre-order walk that
//! turns the graph into a list of draw operations, one per node that owns a
//! drawable, using the cached world transforms as they stand. The host
//! graphics layer only replays the list.

use vstd::prelude::*;
use crate::mat4::{Mat4, Mat4i, m_bounded, mul_spec, mat_mul_checked};
use crate::scene_graph::SceneGraph;
use crate::traversal::{preorder, preorder_kids};

verus! {

/// One indexed-triangle draw operation: which geometry and shader, the
/// full vertex transform, and the model-only transform for lighting.
#[derive(Clone, Copy, PartialEq, Eq, Structural, Debug)]
pub struct DrawCall {
    /// Vertex-array handle of the geometry.
    pub vao_id: u32,
    /// Shader program handle.
    pub shader_id: u32,
    /// Number of indices to draw.
    pub index_count: i32,
    /// View-projection matrix times the node's world transform.
    pub total_transform: Mat4,
    /// The node's world transform alone.
    pub model_transform: Mat4,
}

/// The mathematical image of a draw call.
pub ghost struct DrawCalli {
    pub vao_id: u32,
    pub shader_id: u32,
    pub index_count: i32,
    pub total_transform: Mat4i,
    pub model_transform: Mat4i,
}

impl View for DrawCall {
    type V = DrawCalli;

    open spec fn view(&self) -> DrawCalli {
        DrawCalli {
            vao_id: self.vao_id,
            shader_id: self.shader_id,
            index_count: self.index_count,
            total_transform: self.total_transform@,
            model_transform: self.model_transform@,
        }
    }
}

/// The mathematical images of a list of draw calls.
pub open spec fn calls_view(s: Seq<DrawCall>) -> Seq<DrawCalli> {
    s.map_values(|c: DrawCall| c@)
}

/// The draw operation for the node at `i`, from its cached world transform.
pub open spec fn call_spec(g: SceneGraph, view: Mat4i, i: int) -> DrawCalli {
    DrawCalli {
        vao_id: g.nodes@[i].vao_id,
        shader_id: g.nodes@[i].shader_id,
        index_count: g.nodes@[i].index_count,
        total_transform: mul_spec(view, g.nodes@[i].current_transformation_matrix@),
        model_transform: g.nodes@[i].current_transformation_matrix@,
    }
}

/// The draw list of the subtree rooted at `i`: the node's own draw call if
/// it has a drawable, then the children's lists in order.
pub open spec fn draw_list_spec(g: SceneGraph, view: Mat4i, i: int) -> Seq<DrawCalli>
    decreases g.nodes@.len() - i, 1int, 0int,
{
    if 0 <= i < g.nodes@.len() {
        let head: Seq<DrawCalli> = if g.nodes@[i].vao_id > 0 {
            seq![call_spec(g, view, i)]
        } else {
            Seq::empty()
        };
        head + draw_kids_spec(g, view, i, 0)
    } else {
        Seq::empty()
    }
}

/// The concatenated draw lists of the subtrees of the children of `i`,
/// from the `k`-th child on.
pub open spec fn draw_kids_spec(g: SceneGraph, view: Mat4i, i: int, k: int) -> Seq<DrawCalli>
    decreases g.nodes@.len() - i, 0int, g.nodes@[i].children@.len() - k,
{
    if 0 <= i < g.nodes@.len() && 0 <= k < g.nodes@[i].children@.len() {
        let c = g.nodes@[i].children@[k] as int;
        if i < c < g.nodes@.len() {
            draw_list_spec(g, view, c) + draw_kids_spec(g, view, i, k + 1)
        } else {
            draw_kids_spec(g, view, i, k + 1)
        }
    } else {
        Seq::empty()
    }
}

/// Every vertex transform of the subtree's draw list stays in range.
pub open spec fn draws_ok(g: SceneGraph, view: Mat4i, i: int) -> bool
    decreases g.nodes@.len() - i, 1int, 0int,
{
    if 0 <= i < g.nodes@.len() {
        &&& (g.nodes@[i].vao_id > 0 ==> m_bounded(
            mul_spec(view, g.nodes@[i].current_transformation_matrix@),
        ))
        &&& draw_kids_ok(g, view, i, 0)
    } else {
        true
    }
}

/// Range condition for the children's draw lists from the `k`-th child on.
pub open spec fn draw_kids_ok(g: SceneGraph, view: Mat4i, i: int, k: int) -> bool
    decreases g.nodes@.len() - i, 0int, g.nodes@[i].children@.len() - k,
{
    if 0 <= i < g.nodes@.len() && 0 <= k < g.nodes@[i].children@.len() {
        let c = g.nodes@[i].children@[k] as int;
        if i < c < g.nodes@.len() {
            draws_ok(g, view, c) && draw_kids_ok(g, view, i, k + 1)
        } else {
            draw_kids_ok(g, view, i, k + 1)
        }
    } else {
        true
    }
}

/// Emits the draw list of the subtree rooted at `i` onto `out`.
fn draw_scene_rec(g: &SceneGraph, i: usize, view_transform: &Mat4, out: &mut Vec<DrawCall>) -> (ok:
    bool)
    requires
        g.wf(),
        i < g.nodes@.len(),
        m_bounded(view_transform@),
    ensures
        ok ==> calls_view(final(out)@) == calls_view(old(out)@) + draw_list_spec(
            *g,
            view_transform@,
            i as int,
        ),
        ok ==> draws_ok(*g, view_transform@, i as int),
        !ok ==> !draws_ok(*g, view_transform@, i as int),
    decreases g.nodes@.len() - i,
{
    let ghost start = out@;
    let ghost head = draw_list_spec(*g, view_transform@, i as int).subrange(
        0,
        if g.nodes@[i as int].vao_id > 0 {
            1int
        } else {
            0int
        },
    );
    if g.nodes[i].vao_id > 0 {
        let w = g.nodes[i].current_transformation_matrix;
        let total = match mat_mul_checked(view_transform, &w) {
            Some(m) => m,
            None => {
                return false;
            },
        };
        let dc = DrawCall {
            vao_id: g.nodes[i].vao_id,
            shader_id: g.nodes[i].shader_id,
            index_count: g.nodes[i].index_count,
            total_transform: total,
            model_transform: w,
        };
        out.push(dc);
        proof {
            assert(dc@ == call_spec(*g, view_transform@, i as int));
            assert(calls_view(out@) =~= calls_view(start) + seq![
                call_spec(*g, view_transform@, i as int),
            ]);
        }
    }
    let ghost after_head = out@;
    let mut k: usize = 0;
    let n_kids = {
        let nd = &g.nodes[i];
        nd.children.len()
    };
    while k < n_kids
        invariant
            g.wf(),
            i < g.nodes@.len(),
            m_bounded(view_transform@),
            n_kids == g.nodes@[i as int].children@.len(),
            0 <= k <= n_kids,
            calls_view(out@) == calls_view(after_head) + (draw_kids_spec(
                *g,
                view_transform@,
                i as int,
                0,
            ).subrange(
                0,
                draw_kids_spec(*g, view_transform@, i as int, 0).len() - draw_kids_spec(
                    *g,
                    view_transform@,
                    i as int,
                    k as int,
                ).len(),
            )),
            draw_kids_ok(*g, view_transform@, i as int, 0) <==> draw_kids_ok(
                *g,
                view_transform@,
                i as int,
                k as int,
            ),
            calls_view(after_head) == calls_view(start) + (if g.nodes@[i as int].vao_id > 0 {
                seq![call_spec(*g, view_transform@, i as int)]
            } else {
                Seq::<DrawCalli>::empty()
            }),
            g.nodes@[i as int].vao_id > 0 ==> m_bounded(
                mul_spec(view_transform@, g.nodes@[i as int].current_transformation_matrix@),
            ),
        decreases n_kids - k,
    {
        let c: usize = {
            let nd = &g.nodes[i];
            nd.children[k]
        };
        proof {
            lemma_draw_kids_step(*g, view_transform@, i as int, k as int);
        }
        let ok = draw_scene_rec(g, c, view_transform, out);
        if !ok {
            proof {
                assert(!draw_kids_ok(*g, view_transform@, i as int, k as int));
            }
            return false;
        }
        proof {
            lemma_draw_kids_prefix(*g, view_transform@, i as int, k as int);
        }
        k = k + 1;
    }
    proof {
        assert(draw_kids_spec(*g, view_transform@, i as int, n_kids as int) == Seq::<
            DrawCalli,
        >::empty());
        let whole = draw_kids_spec(*g, view_transform@, i as int, 0);
        assert(whole.subrange(0, whole.len() as int) =~= whole);
        assert(calls_view(out@) =~= calls_view(start) + draw_list_spec(
            *g,
            view_transform@,
            i as int,
        ));
    }
    true
}

/// Unfolds one child of the children's draw list and range condition.
proof fn lemma_draw_kids_step(g: SceneGraph, view: Mat4i, i: int, k: int)
    requires
        g.wf(),
        0 <= i < g.nodes@.len(),
        0 <= k < g.nodes@[i].children@.len(),
    ensures
        draw_kids_spec(g, view, i, k) == draw_list_spec(g, view, g.nodes@[i].children@[k] as int)
            + draw_kids_spec(g, view, i, k + 1),
        draw_kids_ok(g, view, i, k) == (draws_ok(g, view, g.nodes@[i].children@[k] as int)
            && draw_kids_ok(g, view, i, k + 1)),
{
    assert(i < g.nodes@[i].children@[k] < g.nodes@.len());
}

/// The draw list from child `k` on is a suffix of the full children draw
/// list, so the processed part is the matching prefix.
proof fn lemma_draw_kids_prefix(g: SceneGraph, view: Mat4i, i: int, k: int)
    requires
        g.wf(),
        0 <= i < g.nodes@.len(),
        0 <= k <= g.nodes@[i].children@.len(),
    ensures
        draw_kids_spec(g, view, i, k).len() <= draw_kids_spec(g, view, i, 0).len(),
        draw_kids_spec(g, view, i, 0).subrange(
            0,
            draw_kids_spec(g, view, i, 0).len() - draw_kids_spec(g, view, i, k).len(),
        ) + draw_kids_spec(g, view, i, k) =~= draw_kids_spec(g, view, i, 0),
    decreases k,
{
    if k == 0 {
        assert(draw_kids_spec(g, view, i, 0).subrange(0, 0) =~= Seq::<DrawCalli>::empty());
    } else {
        lemma_draw_kids_prefix(g, view, i, k - 1);
        if k - 1 < g.nodes@[i].children@.len() {
            lemma_draw_kids_step(g, view, i, k - 1);
        }
    }
}

/// Walks the graph depth-first from `root` and returns one draw call per
/// node with a drawable, in pre-order, pairing the view-projection times
/// the cached world transform with that world transform; `None` exactly
/// when some vertex transform leaves the entry range. Purely structural
/// nodes are traversed but emit nothing, and the graph is not changed.
pub fn draw_scene(g: &SceneGraph, root: usize, view_transform: &Mat4) -> (r: Option<
    Vec<DrawCall>,
>)
    requires
        g.wf(),
        root < g.nodes@.len(),
        m_bounded(view_transform@),
    ensures
        match r {
            Some(calls) => calls_view(calls@) == draw_list_spec(*g, view_transform@, root as int)
                && draws_ok(*g, view_transform@, root as int),
            None => !draws_ok(*g, view_transform@, root as int),
        },
{
    let mut out: Vec<DrawCall> = Vec::new();
    let ok = draw_scene_rec(g, root, view_transform, &mut out);
    if ok {
        proof {
            assert(calls_view(Seq::<DrawCall>::empty()) =~= Seq::<DrawCalli>::empty());
        }
        Some(out)
    } else {
        None
    }
}

/// Whether the node at an index owns a drawable.
pub open spec fn drawable_at(g: SceneGraph) -> spec_fn(int) -> bool {
    |j: int| 0 <= j < g.nodes@.len() && g.nodes@[j].vao_id > 0
}

/// A filter keeps a whole listing whose every element it accepts.
proof fn lemma_filter_all(s: Seq<int>, pred: spec_fn(int) -> bool)
    requires
        forall|t: int| 0 <= t < s.len() ==> pred(#[trigger] s[t]),
    ensures
        s.filter(pred) == s,
    decreases s.len(),
{
    reveal(Seq::filter);
    if s.len() > 0 {
        lemma_filter_all(s.drop_last(), pred);
        assert(s.drop_last().push(s.last()) =~= s);
    }
}

/// The render pass follows the pre-order traversal: its draw list holds
/// exactly one call for each drawable node the traversal visits, in the
/// order it visits them — so with every node drawable it issues exactly
/// one call per node of the pass.
pub proof fn lemma_draw_list_counts_visits(g: SceneGraph, view: Mat4i, i: int)
    requires
        g.wf(),
        0 <= i < g.nodes@.len(),
    ensures
        draw_list_spec(g, view, i).len() == preorder(g, i).filter(drawable_at(g)).len(),
    decreases g.nodes@.len() - i, 1int, 0int,
{
    broadcast use vstd::prelude::Seq::filter_distributes_over_add;

    reveal_with_fuel(Seq::filter, 3);
    let pred = drawable_at(g);
    lemma_draw_kids_counts_visits(g, view, i, 0);
    let head = seq![i];
    assert(head.drop_last() =~= Seq::<int>::empty());
    assert(Seq::<int>::empty().filter(pred) =~= Seq::<int>::empty());
    if pred(i) {
        assert(head.filter(pred) =~= head);
    } else {
        assert(head.filter(pred) =~= Seq::<int>::empty());
    }
    assert(preorder(g, i) == head + preorder_kids(g, i, 0));
}

/// Counting version for the children listings.
proof fn lemma_draw_kids_counts_visits(g: SceneGraph, view: Mat4i, i: int, k: int)
    requires
        g.wf(),
        0 <= i < g.nodes@.len(),
        0 <= k,
    ensures
        draw_kids_spec(g, view, i, k).len() == preorder_kids(g, i, k).filter(
            drawable_at(g),
        ).len(),
    decreases g.nodes@.len() - i, 0int, g.nodes@[i].children@.len() - k,
{
    broadcast use vstd::prelude::Seq::filter_distributes_over_add;

    reveal_with_fuel(Seq::filter, 3);
    let pred = drawable_at(g);
    if k < g.nodes@[i].children@.len() {
        let c = g.nodes@[i].children@[k] as int;
        assert(i < c < g.nodes@.len());
        lemma_draw_list_counts_visits(g, view, c);
        lemma_draw_kids_counts_visits(g, view, i, k + 1);
    } else {
        assert(Seq::<int>::empty().filter(pred) =~= Seq::<int>::empty());
    }
}

} // verus!
