//! The depth-first pre-order traversal of the scene graph, and the proof
//! that one pass visits every node exactly once: the listing has no
//! duplicates, and when every node hangs off the root it covers the whole
//! arena, so its length is the number of `add_child` calls plus one.

use vstd::prelude::*;
use vstd::set_lib::lemma_int_range;
use crate::scene_graph::{SceneGraph, parent_link_ok, attached_count};

verus! {

/// The pre-order listing of the subtree rooted at `i`: the node itself,
/// then each child's subtree, children in list order.
pub open spec fn preorder(g: SceneGraph, i: int) -> Seq<int>
    decreases g.nodes@.len() - i, 1int, 0int,
{
    if 0 <= i < g.nodes@.len() {
        seq![i] + preorder_kids(g, i, 0)
    } else {
        Seq::empty()
    }
}

/// The concatenated pre-order listings of the subtrees of the children of
/// `i`, from the `k`-th child on.
pub open spec fn preorder_kids(g: SceneGraph, i: int, k: int) -> Seq<int>
    decreases g.nodes@.len() - i, 0int, g.nodes@[i].children@.len() - k,
{
    if 0 <= i < g.nodes@.len() && 0 <= k < g.nodes@[i].children@.len() {
        let c = g.nodes@[i].children@[k] as int;
        if i < c < g.nodes@.len() {
            preorder(g, c) + preorder_kids(g, i, k + 1)
        } else {
            preorder_kids(g, i, k + 1)
        }
    } else {
        Seq::empty()
    }
}

/// Ancestor-or-self: `i` lies on the parent chain of `j`.
pub open spec fn reaches(g: SceneGraph, i: int, j: int) -> bool
    decreases j,
{
    if j == i {
        true
    } else if 0 <= j < g.nodes@.len() && g.nodes@[j].parent is Some && 0 <= (
    g.nodes@[j].parent->0 as int) < j {
        reaches(g, i, g.nodes@[j].parent->0 as int)
    } else {
        false
    }
}

/// An ancestor never has a larger index than its descendant.
proof fn lemma_reaches_le(g: SceneGraph, i: int, j: int)
    requires
        reaches(g, i, j),
    ensures
        i <= j,
    decreases j,
{
    if j != i {
        lemma_reaches_le(g, i, g.nodes@[j].parent->0 as int);
    }
}

/// Ancestry through the parent of `c` extends ancestry from `c`.
proof fn lemma_reaches_lift(g: SceneGraph, i: int, c: int, j: int)
    requires
        g.wf(),
        0 <= c < g.nodes@.len(),
        g.nodes@[c].parent is Some,
        g.nodes@[c].parent->0 as int == i,
        0 <= i < c,
        reaches(g, c, j),
    ensures
        reaches(g, i, j),
    decreases j,
{
    if j == c {
        assert(reaches(g, i, i));
    } else {
        lemma_reaches_lift(g, i, c, g.nodes@[j].parent->0 as int);
    }
}

/// Every element of a subtree listing lies in the arena, at or after the
/// subtree's root; the root itself comes first.
proof fn lemma_preorder_range(g: SceneGraph, i: int)
    requires
        g.wf(),
        0 <= i < g.nodes@.len(),
    ensures
        preorder(g, i).len() >= 1,
        preorder(g, i)[0] == i,
        forall|t: int|
            0 <= t < preorder(g, i).len() ==> i <= #[trigger] preorder(g, i)[t]
                < g.nodes@.len(),
    decreases g.nodes@.len() - i, 1int, 0int,
{
    lemma_kids_range(g, i, 0);
    assert forall|t: int|
        0 <= t < preorder(g, i).len() implies i <= #[trigger] preorder(g, i)[t]
        < g.nodes@.len() by {
        if t > 0 {
            assert(preorder(g, i)[t] == preorder_kids(g, i, 0)[t - 1]);
        }
    }
}

/// Every element of a children listing lies strictly after the parent.
proof fn lemma_kids_range(g: SceneGraph, i: int, k: int)
    requires
        g.wf(),
        0 <= i < g.nodes@.len(),
        0 <= k,
    ensures
        forall|t: int|
            0 <= t < preorder_kids(g, i, k).len() ==> i < #[trigger] preorder_kids(g, i, k)[t]
                < g.nodes@.len(),
    decreases g.nodes@.len() - i, 0int, g.nodes@[i].children@.len() - k,
{
    if k < g.nodes@[i].children@.len() {
        let c = g.nodes@[i].children@[k] as int;
        assert(i < c < g.nodes@.len());
        lemma_preorder_range(g, c);
        lemma_kids_range(g, i, k + 1);
        assert forall|t: int|
            0 <= t < preorder_kids(g, i, k).len() implies i < #[trigger] preorder_kids(
            g,
            i,
            k,
        )[t] < g.nodes@.len() by {
            let head = preorder(g, c);
            if t < head.len() {
                assert(preorder_kids(g, i, k)[t] == head[t]);
            } else {
                assert(preorder_kids(g, i, k)[t] == preorder_kids(g, i, k + 1)[t - head.len()]);
            }
        }
    }
}

/// A children listing holds exactly the elements of the subtrees of the
/// children from the `k`-th on.
proof fn lemma_kids_decompose(g: SceneGraph, i: int, k: int, x: int)
    requires
        g.wf(),
        0 <= i < g.nodes@.len(),
        0 <= k,
    ensures
        preorder_kids(g, i, k).contains(x) <==> exists|k2: int|
            k <= k2 < g.nodes@[i].children@.len() && #[trigger] preorder(
                g,
                g.nodes@[i].children@[k2] as int,
            ).contains(x),
    decreases g.nodes@.len() - i, 0int, g.nodes@[i].children@.len() - k,
{
    if k < g.nodes@[i].children@.len() {
        let c = g.nodes@[i].children@[k] as int;
        assert(i < c < g.nodes@.len());
        lemma_kids_decompose(g, i, k + 1, x);
        let head = preorder(g, c);
        let tail = preorder_kids(g, i, k + 1);
        assert(preorder_kids(g, i, k) == head + tail);
        if preorder_kids(g, i, k).contains(x) {
            let t = choose|t: int|
                0 <= t < (head + tail).len() && (head + tail)[t] == x;
            if t < head.len() {
                assert(head[t] == x);
                assert(preorder(g, g.nodes@[i].children@[k] as int).contains(x));
            } else {
                assert(tail[t - head.len()] == x);
                assert(tail.contains(x));
            }
        }
        if exists|k2: int|
            k <= k2 < g.nodes@[i].children@.len() && #[trigger] preorder(
                g,
                g.nodes@[i].children@[k2] as int,
            ).contains(x) {
            let k2 = choose|k2: int|
                k <= k2 < g.nodes@[i].children@.len() && #[trigger] preorder(
                    g,
                    g.nodes@[i].children@[k2] as int,
                ).contains(x);
            if k2 == k {
                let t = choose|t: int| 0 <= t < head.len() && head[t] == x;
                assert((head + tail)[t] == x);
            } else {
                assert(tail.contains(x));
                let t = choose|t: int| 0 <= t < tail.len() && tail[t] == x;
                assert((head + tail)[head.len() + t] == x);
            }
        }
    }
}

/// Everything listed in a subtree is a descendant of the subtree's root.
proof fn lemma_preorder_reaches(g: SceneGraph, i: int, x: int)
    requires
        g.wf(),
        0 <= i < g.nodes@.len(),
        preorder(g, i).contains(x),
    ensures
        reaches(g, i, x),
    decreases g.nodes@.len() - i,
{
    if x != i {
        let t = choose|t: int| 0 <= t < preorder(g, i).len() && preorder(g, i)[t] == x;
        assert(t > 0);
        assert(preorder_kids(g, i, 0)[t - 1] == x);
        assert(preorder_kids(g, i, 0).contains(x));
        lemma_kids_decompose(g, i, 0, x);
        let k2 = choose|k2: int|
            0 <= k2 < g.nodes@[i].children@.len() && #[trigger] preorder(
                g,
                g.nodes@[i].children@[k2] as int,
            ).contains(x);
        let c = g.nodes@[i].children@[k2] as int;
        assert(i < c < g.nodes@.len());
        lemma_preorder_reaches(g, c, x);
        lemma_reaches_lift(g, i, c, x);
    }
}

/// Every descendant of the subtree's root is listed in the subtree.
proof fn lemma_reaches_preorder(g: SceneGraph, i: int, x: int)
    requires
        g.wf(),
        0 <= i < g.nodes@.len(),
        0 <= x < g.nodes@.len(),
        reaches(g, i, x),
    ensures
        preorder(g, i).contains(x),
    decreases x,
{
    if x == i {
        lemma_preorder_range(g, i);
        assert(preorder(g, i)[0] == i);
    } else {
        let p = g.nodes@[x].parent->0 as int;
        lemma_reaches_preorder(g, i, p);
        assert(parent_link_ok(g, x));
        let k = choose|k: int|
            0 <= k < g.nodes@[p].children@.len() && (#[trigger] g.nodes@[p].children@[k]) as int
                == x;
        lemma_preorder_range(g, x);
        assert(preorder(g, x).contains(x));
        lemma_child_subtree_in(g, i, p, x, k);
    }
}

/// If a node is listed in a subtree, so is each of its children.
proof fn lemma_child_subtree_in(g: SceneGraph, i: int, p: int, x: int, k: int)
    requires
        g.wf(),
        0 <= i < g.nodes@.len(),
        0 <= p < g.nodes@.len(),
        0 <= k < g.nodes@[p].children@.len(),
        g.nodes@[p].children@[k] as int == x,
        0 <= x < g.nodes@.len(),
        preorder(g, i).contains(p),
    ensures
        preorder(g, i).contains(x),
    decreases g.nodes@.len() - i,
{
    assert(p < x < g.nodes@.len());
    if p == i {
        lemma_kids_member(g, i, 0, k);
        lemma_preorder_range(g, x);
        lemma_kids_decompose(g, i, 0, x);
        assert(preorder_kids(g, i, 0).contains(x));
        let t = choose|t: int|
            0 <= t < preorder_kids(g, i, 0).len() && preorder_kids(g, i, 0)[t] == x;
        assert(preorder(g, i)[t + 1] == x);
    } else {
        let t = choose|t: int| 0 <= t < preorder(g, i).len() && preorder(g, i)[t] == p;
        assert(t > 0);
        assert(preorder_kids(g, i, 0)[t - 1] == p);
        assert(preorder_kids(g, i, 0).contains(p));
        lemma_kids_decompose(g, i, 0, p);
        let k2 = choose|k2: int|
            0 <= k2 < g.nodes@[i].children@.len() && #[trigger] preorder(
                g,
                g.nodes@[i].children@[k2] as int,
            ).contains(p);
        let c = g.nodes@[i].children@[k2] as int;
        assert(i < c < g.nodes@.len());
        lemma_child_subtree_in(g, c, p, x, k);
        lemma_kids_decompose(g, i, 0, x);
        let t2 = choose|t2: int|
            0 <= t2 < preorder_kids(g, i, 0).len() && preorder_kids(g, i, 0)[t2] == x;
        assert(preorder(g, i)[t2 + 1] == x);
    }
}

/// A child's own subtree listing is (trivially) one of those the
/// decomposition ranges over: its head element is the child.
proof fn lemma_kids_member(g: SceneGraph, i: int, k: int, k2: int)
    requires
        g.wf(),
        0 <= i < g.nodes@.len(),
        0 <= k <= k2 < g.nodes@[i].children@.len(),
    ensures
        preorder_kids(g, i, k).contains(g.nodes@[i].children@[k2] as int),
    decreases g.nodes@.len() - i, 0int, g.nodes@[i].children@.len() - k,
{
    let c = g.nodes@[i].children@[k] as int;
    assert(i < c < g.nodes@.len());
    let head = preorder(g, c);
    let tail = preorder_kids(g, i, k + 1);
    if k2 == k {
        lemma_preorder_range(g, c);
        assert((head + tail)[0] == c);
    } else {
        lemma_kids_member(g, i, k + 1, k2);
        let x = g.nodes@[i].children@[k2] as int;
        let t = choose|t: int| 0 <= t < tail.len() && tail[t] == x;
        assert((head + tail)[head.len() + t] == x);
    }
}

/// Two distinct children of one parent have disjoint descendant sets: the
/// parent chain of any shared descendant would pass through both.
proof fn lemma_siblings_disjoint(g: SceneGraph, i: int, c1: int, c2: int, j: int)
    requires
        g.wf(),
        0 <= i < g.nodes@.len(),
        i < c1 < g.nodes@.len(),
        i < c2 < g.nodes@.len(),
        c1 != c2,
        g.nodes@[c1].parent is Some,
        g.nodes@[c1].parent->0 as int == i,
        g.nodes@[c2].parent is Some,
        g.nodes@[c2].parent->0 as int == i,
        reaches(g, c1, j),
    ensures
        !reaches(g, c2, j),
    decreases j,
{
    if reaches(g, c2, j) {
        if j == c1 {
            assert(reaches(g, c2, i));
            lemma_reaches_le(g, c2, i);
        } else if j == c2 {
            assert(reaches(g, c1, i));
            lemma_reaches_le(g, c1, i);
        } else {
            lemma_siblings_disjoint(g, i, c1, c2, g.nodes@[j].parent->0 as int);
        }
    }
}

/// No node appears twice in a subtree listing.
proof fn lemma_preorder_nodup(g: SceneGraph, i: int)
    requires
        g.wf(),
        0 <= i < g.nodes@.len(),
    ensures
        preorder(g, i).no_duplicates(),
    decreases g.nodes@.len() - i, 1int, 0int,
{
    lemma_kids_nodup(g, i, 0);
    lemma_kids_range(g, i, 0);
    let s = preorder(g, i);
    let kids = preorder_kids(g, i, 0);
    assert forall|t1: int, t2: int|
        0 <= t1 < s.len() && 0 <= t2 < s.len() && t1 != t2 implies s[t1] != s[t2] by {
        if t1 > 0 && t2 > 0 {
            assert(s[t1] == kids[t1 - 1]);
            assert(s[t2] == kids[t2 - 1]);
        } else if t1 == 0 && t2 > 0 {
            assert(s[t2] == kids[t2 - 1]);
        } else if t2 == 0 && t1 > 0 {
            assert(s[t1] == kids[t1 - 1]);
        }
    }
}

/// No node appears twice across the children listings: within one child's
/// subtree by induction, across children by sibling disjointness.
proof fn lemma_kids_nodup(g: SceneGraph, i: int, k: int)
    requires
        g.wf(),
        0 <= i < g.nodes@.len(),
        0 <= k,
    ensures
        preorder_kids(g, i, k).no_duplicates(),
    decreases g.nodes@.len() - i, 0int, g.nodes@[i].children@.len() - k,
{
    if k < g.nodes@[i].children@.len() {
        let c = g.nodes@[i].children@[k] as int;
        assert(i < c < g.nodes@.len());
        lemma_preorder_nodup(g, c);
        lemma_kids_nodup(g, i, k + 1);
        let head = preorder(g, c);
        let tail = preorder_kids(g, i, k + 1);
        assert forall|x: int| head.contains(x) implies !tail.contains(x) by {
            if tail.contains(x) {
                lemma_preorder_reaches(g, c, x);
                lemma_kids_decompose(g, i, k + 1, x);
                let k2 = choose|k2: int|
                    k + 1 <= k2 < g.nodes@[i].children@.len() && #[trigger] preorder(
                        g,
                        g.nodes@[i].children@[k2] as int,
                    ).contains(x);
                let c2 = g.nodes@[i].children@[k2] as int;
                assert(i < c2 < g.nodes@.len());
                lemma_preorder_reaches(g, c2, x);
                assert(c != c2);
                lemma_siblings_disjoint(g, i, c, c2, x);
            }
        }
        let s = preorder_kids(g, i, k);
        assert(s == head + tail);
        assert forall|t1: int, t2: int|
            0 <= t1 < s.len() && 0 <= t2 < s.len() && t1 != t2 implies s[t1] != s[t2] by {
            if t1 < head.len() && t2 < head.len() {
                assert(s[t1] == head[t1]);
                assert(s[t2] == head[t2]);
            } else if t1 < head.len() && t2 >= head.len() {
                assert(s[t1] == head[t1]);
                assert(s[t2] == tail[t2 - head.len()]);
                assert(head.contains(head[t1]));
                if s[t1] == s[t2] {
                    assert(tail.contains(head[t1]));
                }
            } else if t1 >= head.len() && t2 < head.len() {
                assert(s[t1] == tail[t1 - head.len()]);
                assert(s[t2] == head[t2]);
                assert(head.contains(head[t2]));
                if s[t1] == s[t2] {
                    assert(tail.contains(head[t2]));
                }
            } else {
                assert(s[t1] == tail[t1 - head.len()]);
                assert(s[t2] == tail[t2 - head.len()]);
            }
        }
    }
}

/// In a fully attached graph the root reaches every node.
proof fn lemma_root_reaches(g: SceneGraph, j: int)
    requires
        g.wf(),
        g.nodes@.len() >= 1,
        g.nodes@[0].parent is None,
        forall|c: int| 1 <= c < g.nodes@.len() ==> (#[trigger] g.nodes@[c]).parent is Some,
        0 <= j < g.nodes@.len(),
    ensures
        reaches(g, 0, j),
    decreases j,
{
    if j != 0 {
        assert(parent_link_ok(g, j));
        lemma_root_reaches(g, g.nodes@[j].parent->0 as int);
    }
}

/// When every node except the root has a parent the first `m` nodes
/// contribute `m - 1` attachments.
proof fn lemma_attached_count_full(g: SceneGraph, m: int)
    requires
        g.nodes@.len() >= 1,
        g.nodes@[0].parent is None,
        forall|c: int| 1 <= c < g.nodes@.len() ==> (#[trigger] g.nodes@[c]).parent is Some,
        0 <= m <= g.nodes@.len(),
    ensures
        attached_count(g, m) == if m == 0 {
            0int
        } else {
            m - 1
        },
    decreases m,
{
    if m > 0 {
        lemma_attached_count_full(g, m - 1);
    }
}

/// One traversal pass visits every node exactly once. In a well-formed,
/// fully attached graph — every node but the root at index 0 has a parent —
/// the pre-order listing from the root has no duplicates, covers the whole
/// arena, and its length is the number of `add_child` calls plus one for
/// the root.
pub proof fn lemma_traversal_visits_each_node_once(g: SceneGraph)
    requires
        g.wf(),
        g.nodes@.len() >= 1,
        g.nodes@[0].parent is None,
        forall|c: int| 1 <= c < g.nodes@.len() ==> (#[trigger] g.nodes@[c]).parent is Some,
    ensures
        preorder(g, 0).no_duplicates(),
        forall|j: int| 0 <= j < g.nodes@.len() ==> preorder(g, 0).contains(j),
        forall|t: int|
            0 <= t < preorder(g, 0).len() ==> 0 <= #[trigger] preorder(g, 0)[t]
                < g.nodes@.len(),
        preorder(g, 0).len() == g.nodes@.len(),
        preorder(g, 0).len() == g.edges@ + 1,
{
    broadcast use vstd::set::group_set_axioms;
    broadcast use vstd::seq_lib::group_seq_properties;

    let n = g.nodes@.len() as int;
    let s = preorder(g, 0);
    lemma_preorder_nodup(g, 0);
    lemma_preorder_range(g, 0);
    assert forall|j: int| 0 <= j < n implies s.contains(j) by {
        lemma_root_reaches(g, j);
        lemma_reaches_preorder(g, 0, j);
    }
    s.unique_seq_to_set();
    lemma_int_range(0, n);
    assert(s.to_set() =~= vstd::set_lib::set_int_range(0, n));
    lemma_attached_count_full(g, n);
}

} // verus!
