//! The scene graph: a flat arena of transform nodes whose parent/child
//! edges are indices. A child always has a larger index than its parent, so
//! the hierarchy is a forest by construction and every traversal terminates.
//!
//! Each node carries local transform fields (position, rotation, scale,
//! reference point), an optional drawable (a zero `vao_id` marks a purely
//! structural node), and a cached world transform that only the propagation
//! pass writes.

use vstd::prelude::*;
use vstd::arithmetic::div_mod::lemma_div_of0;
use crate::fixed::{ONE, ANGLE_LIMIT, div_one, sin_spec, cos_spec, lemma_sin_zero,
    lemma_cos_zero};
use crate::mat4::{Vec3, Mat4, Mat4i, v3_bounded, m_bounded, mul_spec, ident_spec,
    translation_spec, scaling_spec, rotation_x_spec, rotation_y_spec, rotation_z_spec,
    mat_mul_checked, lemma_ident_mul_left, lemma_ident_mul_right, lemma_div_one_unit};

verus! {

/// Largest magnitude for a node's position, reference point and scale.
pub const FIELD_MAX: i64 = 0x4000_0000_0000;

/// One transform node of the scene graph.
pub struct SceneNode {
    /// Local translation.
    pub position: Vec3,
    /// Local Euler angles, applied about x, then y, then z.
    pub rotation: Vec3,
    /// Local non-uniform scale.
    pub scale: Vec3,
    /// The pivot about which the rotation is applied.
    pub reference_point: Vec3,
    /// The cached world transform; valid only after a propagation pass.
    pub current_transformation_matrix: Mat4,
    /// Vertex-array handle of the drawable; zero marks a structural node.
    pub vao_id: u32,
    /// Shader handle used when this node is drawn.
    pub shader_id: u32,
    /// Number of indices of the drawable geometry.
    pub index_count: i32,
    /// Indices of the children, each larger than this node's own index.
    pub children: Vec<usize>,
    /// Index of the unique parent, if this node has been attached.
    pub parent: Option<usize>,
}

/// The arena holding every node; edges are indices into `nodes`.
pub struct SceneGraph {
    /// The nodes, in creation order; parents precede their children.
    pub nodes: Vec<SceneNode>,
    /// How many edges have been added: the number of attached nodes.
    pub edges: Ghost<nat>,
}

/// Local fields small enough for every transform computation to stay in
/// range.
pub open spec fn node_fields_ok(n: SceneNode) -> bool {
    &&& v3_bounded(n.position, FIELD_MAX as int)
    &&& v3_bounded(n.reference_point, FIELD_MAX as int)
    &&& v3_bounded(n.scale, FIELD_MAX as int)
    &&& v3_bounded(n.rotation, ANGLE_LIMIT as int)
}

/// All fields of the two nodes agree except possibly the cached world
/// transform.
pub open spec fn node_same_but_world(a: SceneNode, b: SceneNode) -> bool {
    &&& a.position == b.position
    &&& a.rotation == b.rotation
    &&& a.scale == b.scale
    &&& a.reference_point == b.reference_point
    &&& a.vao_id == b.vao_id
    &&& a.shader_id == b.shader_id
    &&& a.index_count == b.index_count
    &&& a.children@ == b.children@
    &&& a.parent == b.parent
}

/// The two graphs agree on everything but cached world transforms.
pub open spec fn same_structure(g1: SceneGraph, g2: SceneGraph) -> bool {
    &&& g1.nodes@.len() == g2.nodes@.len()
    &&& g1.edges@ == g2.edges@
    &&& forall|i: int|
        0 <= i < g1.nodes@.len() ==> node_same_but_world(
            #[trigger] g1.nodes@[i],
            g2.nodes@[i],
        )
}

/// How many of the first `n` nodes have a parent.
pub open spec fn attached_count(g: SceneGraph, n: int) -> nat
    decreases n,
{
    if n <= 0 {
        0
    } else {
        attached_count(g, n - 1) + (if g.nodes@[n - 1].parent is Some {
            1nat
        } else {
            0nat
        })
    }
}

/// The node at `c` hangs off its recorded parent: the parent has a smaller
/// index and lists `c` among its children.
pub open spec fn parent_link_ok(g: SceneGraph, c: int) -> bool {
    let p = g.nodes@[c].parent->0 as int;
    &&& 0 <= p < c
    &&& exists|k: int|
        0 <= k < g.nodes@[p].children@.len() && (#[trigger] g.nodes@[p].children@[k]) as int == c
}

impl SceneNode {
    /// A structural node with identity transform fields, no drawable and
    /// no children.
    pub fn new() -> (n: SceneNode)
        ensures
            n.position == (Vec3 { x: 0, y: 0, z: 0 }),
            n.rotation == (Vec3 { x: 0, y: 0, z: 0 }),
            n.scale == (Vec3 { x: ONE, y: ONE, z: ONE }),
            n.reference_point == (Vec3 { x: 0, y: 0, z: 0 }),
            n.current_transformation_matrix@ == ident_spec(),
            n.vao_id == 0,
            n.shader_id == 0,
            n.index_count == 0,
            n.children@ == Seq::<usize>::empty(),
            n.parent is None,
            node_fields_ok(n),
            m_bounded(n.current_transformation_matrix@),
    {
        SceneNode {
            position: Vec3 { x: 0, y: 0, z: 0 },
            rotation: Vec3 { x: 0, y: 0, z: 0 },
            scale: Vec3 { x: ONE, y: ONE, z: ONE },
            reference_point: Vec3 { x: 0, y: 0, z: 0 },
            current_transformation_matrix: Mat4::identity(),
            vao_id: 0,
            shader_id: 0,
            index_count: 0,
            children: Vec::new(),
            parent: None,
        }
    }

    /// A drawable node with identity transform fields and no children.
    pub fn from_vao(vao_id: u32, shader_id: u32, index_count: i32) -> (n: SceneNode)
        ensures
            n.position == (Vec3 { x: 0, y: 0, z: 0 }),
            n.rotation == (Vec3 { x: 0, y: 0, z: 0 }),
            n.scale == (Vec3 { x: ONE, y: ONE, z: ONE }),
            n.reference_point == (Vec3 { x: 0, y: 0, z: 0 }),
            n.current_transformation_matrix@ == ident_spec(),
            n.vao_id == vao_id,
            n.shader_id == shader_id,
            n.index_count == index_count,
            n.children@ == Seq::<usize>::empty(),
            n.parent is None,
            node_fields_ok(n),
            m_bounded(n.current_transformation_matrix@),
    {
        SceneNode {
            position: Vec3 { x: 0, y: 0, z: 0 },
            rotation: Vec3 { x: 0, y: 0, z: 0 },
            scale: Vec3 { x: ONE, y: ONE, z: ONE },
            reference_point: Vec3 { x: 0, y: 0, z: 0 },
            current_transformation_matrix: Mat4::identity(),
            vao_id,
            shader_id,
            index_count,
            children: Vec::new(),
            parent: None,
        }
    }
}

impl SceneGraph {
    /// Well-formedness: fields in range, bounded cached transforms, child
    /// indices valid and larger than the parent's, each node in at most one
    /// child list and at most once, parent back-links consistent, and the
    /// edge counter equal to the number of attached nodes.
    pub open spec fn wf(&self) -> bool {
        let n = self.nodes@.len() as int;
        &&& forall|i: int| 0 <= i < n ==> node_fields_ok(#[trigger] self.nodes@[i])
        &&& forall|i: int|
            0 <= i < n ==> m_bounded((#[trigger] self.nodes@[i]).current_transformation_matrix@)
        &&& forall|i: int, k: int|
            0 <= i < n && 0 <= k < self.nodes@[i].children@.len() ==> i
                < #[trigger] self.nodes@[i].children@[k] < n
        &&& forall|i: int, k: int|
            0 <= i < n && 0 <= k < self.nodes@[i].children@.len()
                ==> self.nodes@[(#[trigger] self.nodes@[i].children@[k]) as int].parent is Some
                && self.nodes@[self.nodes@[i].children@[k] as int].parent->0 as int == i
        &&& forall|i: int, k1: int, k2: int|
            0 <= i < n && 0 <= k1 < self.nodes@[i].children@.len() && 0 <= k2
                < self.nodes@[i].children@.len() && #[trigger] self.nodes@[i].children@[k1]
                == #[trigger] self.nodes@[i].children@[k2] ==> k1 == k2
        &&& forall|c: int|
            0 <= c < n && (#[trigger] self.nodes@[c]).parent is Some ==> parent_link_ok(*self, c)
        &&& self.edges@ == attached_count(*self, n)
    }

    /// An empty scene graph.
    pub fn new() -> (g: SceneGraph)
        ensures
            g.wf(),
            g.nodes@.len() == 0,
            g.edges@ == 0,
    {
        SceneGraph { nodes: Vec::new(), edges: Ghost(0nat) }
    }

    /// The number of nodes.
    pub fn len(&self) -> (n: usize)
        ensures
            n == self.nodes@.len(),
    {
        self.nodes.len()
    }

    /// Appends a fresh, detached node and returns its index.
    pub fn add_node(&mut self, node: SceneNode) -> (idx: usize)
        requires
            old(self).wf(),
            node.children@.len() == 0,
            node.parent is None,
            node_fields_ok(node),
            m_bounded(node.current_transformation_matrix@),
            old(self).nodes@.len() < usize::MAX,
        ensures
            final(self).wf(),
            idx == old(self).nodes@.len(),
            final(self).nodes@ == old(self).nodes@.push(node),
            final(self).edges@ == old(self).edges@,
    {
        let idx = self.nodes.len();
        self.nodes.push(node);
        proof {
            lemma_attached_count_congruence(*old(self), *self, idx as int);
            assert(attached_count(*self, idx + 1) == attached_count(*self, idx as int));
            assert forall|c: int|
                0 <= c < idx + 1 && (#[trigger] self.nodes@[c]).parent is Some
                    implies parent_link_ok(*self, c) by {
                assert(old(self).nodes@[c].parent is Some);
                assert(parent_link_ok(*old(self), c));
                let p = old(self).nodes@[c].parent->0 as int;
                let k = choose|k: int|
                    0 <= k < old(self).nodes@[p].children@.len()
                        && (#[trigger] old(self).nodes@[p].children@[k]) as int == c;
                assert(self.nodes@[p].children@[k] as int == c);
            }
        }
        idx
    }

    /// Attaches the node at `child` under the node at `parent`. The child
    /// must not already have a parent: each node is owned by at most one
    /// parent, and a node can never become its own descendant because
    /// edges only ever point from a smaller index to a larger one.
    pub fn add_child(&mut self, parent: usize, child: usize)
        requires
            old(self).wf(),
            parent < child,
            child < old(self).nodes@.len(),
            old(self).nodes@[parent as int].children@.len() < usize::MAX,
            old(self).nodes@[child as int].parent is None,
        ensures
            final(self).wf(),
            final(self).nodes@.len() == old(self).nodes@.len(),
            final(self).edges@ == old(self).edges@ + 1,
            final(self).nodes@[parent as int] == (SceneNode {
                children: final(self).nodes@[parent as int].children,
                ..old(self).nodes@[parent as int]
            }),
            final(self).nodes@[parent as int].children@ == old(
                self,
            ).nodes@[parent as int].children@.push(child),
            final(self).nodes@[child as int] == (SceneNode {
                parent: Some(parent),
                ..old(self).nodes@[child as int]
            }),
            forall|i: int|
                0 <= i < old(self).nodes@.len() && i != parent && i != child
                    ==> final(self).nodes@[i] == old(self).nodes@[i],
    {
        let np = &mut self.nodes[parent];
        np.children.push(child);
        let nc = &mut self.nodes[child];
        nc.parent = Some(parent);
        proof {
            self.edges@ = self.edges@ + 1;
        }
        proof {
            let n = self.nodes@.len() as int;
            lemma_attached_count_set_parent(*old(self), *self, n, child as int);
            assert forall|c: int|
                0 <= c < n && (#[trigger] self.nodes@[c]).parent is Some implies parent_link_ok(
                *self,
                c,
            ) by {
                if c == child {
                    let k = self.nodes@[parent as int].children@.len() - 1;
                    assert(self.nodes@[parent as int].children@[k] == child);
                } else {
                    assert(old(self).nodes@[c].parent is Some);
                    assert(parent_link_ok(*old(self), c));
                    let p = old(self).nodes@[c].parent->0 as int;
                    let k = choose|k: int|
                        0 <= k < old(self).nodes@[p].children@.len()
                            && (#[trigger] old(self).nodes@[p].children@[k]) as int == c;
                    assert(self.nodes@[p].children@[k] as int == c);
                }
            }
        }
    }

    /// Overwrites the cached world transform of the node at `i`; only the
    /// propagation pass calls this.
    fn set_world(&mut self, i: usize, w: Mat4)
        requires
            old(self).wf(),
            i < old(self).nodes@.len(),
            m_bounded(w@),
        ensures
            final(self).wf(),
            final(self).nodes@ == old(self).nodes@.update(
                i as int,
                (SceneNode { current_transformation_matrix: w, ..old(self).nodes@[i as int] }),
            ),
            final(self).edges@ == old(self).edges@,
    {
        let nd = &mut self.nodes[i];
        nd.current_transformation_matrix = w;
        proof {
            lemma_attached_count_congruence(*old(self), *self, self.nodes@.len() as int);
            lemma_wf_after_field_update(*old(self), *self, i as int);
        }
    }

    /// Overwrites the local rotation of the node at `i`.
    pub fn set_rotation(&mut self, i: usize, v: Vec3)
        requires
            old(self).wf(),
            i < old(self).nodes@.len(),
            v3_bounded(v, ANGLE_LIMIT as int),
        ensures
            final(self).wf(),
            final(self).nodes@ == old(self).nodes@.update(
                i as int,
                (SceneNode { rotation: v, ..old(self).nodes@[i as int] }),
            ),
            final(self).edges@ == old(self).edges@,
    {
        let nd = &mut self.nodes[i];
        nd.rotation = v;
        proof {
            lemma_attached_count_congruence(*old(self), *self, self.nodes@.len() as int);
            lemma_wf_after_field_update(*old(self), *self, i as int);
        }
    }

    /// Overwrites the local scale of the node at `i`.
    pub fn set_scale(&mut self, i: usize, v: Vec3)
        requires
            old(self).wf(),
            i < old(self).nodes@.len(),
            v3_bounded(v, FIELD_MAX as int),
        ensures
            final(self).wf(),
            final(self).nodes@ == old(self).nodes@.update(
                i as int,
                (SceneNode { scale: v, ..old(self).nodes@[i as int] }),
            ),
            final(self).edges@ == old(self).edges@,
    {
        let nd = &mut self.nodes[i];
        nd.scale = v;
        proof {
            lemma_attached_count_congruence(*old(self), *self, self.nodes@.len() as int);
            lemma_wf_after_field_update(*old(self), *self, i as int);
        }
    }

    /// Overwrites the local position of the node at `i`.
    pub fn set_position(&mut self, i: usize, v: Vec3)
        requires
            old(self).wf(),
            i < old(self).nodes@.len(),
            v3_bounded(v, FIELD_MAX as int),
        ensures
            final(self).wf(),
            final(self).nodes@ == old(self).nodes@.update(
                i as int,
                (SceneNode { position: v, ..old(self).nodes@[i as int] }),
            ),
            final(self).edges@ == old(self).edges@,
    {
        let nd = &mut self.nodes[i];
        nd.position = v;
        proof {
            lemma_attached_count_congruence(*old(self), *self, self.nodes@.len() as int);
            lemma_wf_after_field_update(*old(self), *self, i as int);
        }
    }
}

/// Two graphs whose first `n` nodes record the same parents have the same
/// attached count over those nodes.
proof fn lemma_attached_count_congruence(g1: SceneGraph, g2: SceneGraph, n: int)
    requires
        forall|j: int| 0 <= j < n ==> g1.nodes@[j].parent == (#[trigger] g2.nodes@[j]).parent,
    ensures
        attached_count(g1, n) == attached_count(g2, n),
    decreases n,
{
    if n > 0 {
        lemma_attached_count_congruence(g1, g2, n - 1);
    }
}

/// Attaching exactly one previously detached node raises the attached count
/// by one.
proof fn lemma_attached_count_set_parent(g1: SceneGraph, g2: SceneGraph, n: int, c: int)
    requires
        0 <= c < n,
        forall|j: int|
            0 <= j < n && j != c ==> g1.nodes@[j].parent == (#[trigger] g2.nodes@[j]).parent,
        g1.nodes@[c].parent is None,
        g2.nodes@[c].parent is Some,
    ensures
        attached_count(g2, n) == attached_count(g1, n) + 1,
    decreases n,
{
    if c == n - 1 {
        lemma_attached_count_congruence(g1, g2, n - 1);
    } else {
        lemma_attached_count_set_parent(g1, g2, n - 1, c);
    }
}

/// The local matrix of a node: translate to the position, rotate about the
/// reference point (x, then y, then z), then scale. Written as the product
/// `T(position) . [T(ref) . Rx . Ry . Rz . T(-ref)] . S(scale)`, associated
/// exactly as the propagation pass computes it.
#[verifier::opaque]
pub open spec fn local_spec(n: SceneNode) -> Mat4i {
    let t_ref = translation_spec(
        n.reference_point.x as int,
        n.reference_point.y as int,
        n.reference_point.z as int,
    );
    let t_negref = translation_spec(
        -(n.reference_point.x as int),
        -(n.reference_point.y as int),
        -(n.reference_point.z as int),
    );
    let t_pos = translation_spec(n.position.x as int, n.position.y as int, n.position.z as int);
    let s = scaling_spec(n.scale.x as int, n.scale.y as int, n.scale.z as int);
    let r1 = mul_spec(t_ref, rotation_x_spec(n.rotation.x as int));
    let r2 = mul_spec(r1, rotation_y_spec(n.rotation.y as int));
    let r3 = mul_spec(r2, rotation_z_spec(n.rotation.z as int));
    let pivot = mul_spec(r3, t_negref);
    let placed = mul_spec(t_pos, pivot);
    mul_spec(placed, s)
}

/// Every intermediate product of the local matrix stays within `MAT_MAX`.
#[verifier::opaque]
pub open spec fn local_ok(n: SceneNode) -> bool {
    let t_ref = translation_spec(
        n.reference_point.x as int,
        n.reference_point.y as int,
        n.reference_point.z as int,
    );
    let t_negref = translation_spec(
        -(n.reference_point.x as int),
        -(n.reference_point.y as int),
        -(n.reference_point.z as int),
    );
    let t_pos = translation_spec(n.position.x as int, n.position.y as int, n.position.z as int);
    let s = scaling_spec(n.scale.x as int, n.scale.y as int, n.scale.z as int);
    let r1 = mul_spec(t_ref, rotation_x_spec(n.rotation.x as int));
    let r2 = mul_spec(r1, rotation_y_spec(n.rotation.y as int));
    let r3 = mul_spec(r2, rotation_z_spec(n.rotation.z as int));
    let pivot = mul_spec(r3, t_negref);
    let placed = mul_spec(t_pos, pivot);
    &&& m_bounded(r1)
    &&& m_bounded(r2)
    &&& m_bounded(r3)
    &&& m_bounded(pivot)
    &&& m_bounded(placed)
    &&& m_bounded(mul_spec(placed, s))
}

/// The world transform of the node at `i`: its parent's world transform —
/// or the initial transform at a root — times its own local matrix.
pub open spec fn world_spec(g: SceneGraph, i: int, init: Mat4i) -> Mat4i
    decreases i,
{
    if 0 <= i < g.nodes@.len() {
        match g.nodes@[i].parent {
            Some(p) => if 0 <= p < i {
                mul_spec(world_spec(g, p as int, init), local_spec(g.nodes@[i]))
            } else {
                mul_spec(init, local_spec(g.nodes@[i]))
            },
            None => mul_spec(init, local_spec(g.nodes@[i])),
        }
    } else {
        ident_spec()
    }
}

/// Every product along the ancestor chain of the node at `i` stays in
/// range, so propagation can cache its world transform.
pub open spec fn world_ok(g: SceneGraph, i: int, init: Mat4i) -> bool
    decreases i,
{
    if 0 <= i < g.nodes@.len() {
        &&& local_ok(g.nodes@[i])
        &&& match g.nodes@[i].parent {
            Some(p) => if 0 <= p < i {
                world_ok(g, p as int, init) && m_bounded(
                    mul_spec(world_spec(g, p as int, init), local_spec(g.nodes@[i])),
                )
            } else {
                m_bounded(mul_spec(init, local_spec(g.nodes@[i])))
            },
            None => m_bounded(mul_spec(init, local_spec(g.nodes@[i]))),
        }
    } else {
        true
    }
}

/// The local matrix of a node, range-checked; `None` exactly when some
/// intermediate product leaves the entry range.
pub fn local_matrix(n: &SceneNode) -> (r: Option<Mat4>)
    requires
        node_fields_ok(*n),
    ensures
        match r {
            Some(m) => m@ == local_spec(*n) && m_bounded(m@) && local_ok(*n),
            None => !local_ok(*n),
        },
{
    proof {
        reveal(local_spec);
        reveal(local_ok);
    }
    let t_ref = Mat4::translation(&n.reference_point);
    let rx = Mat4::rotation_x(n.rotation.x);
    let r1 = match mat_mul_checked(&t_ref, &rx) {
        Some(m) => m,
        None => {
            return None;
        },
    };
    let ry = Mat4::rotation_y(n.rotation.y);
    let r2 = match mat_mul_checked(&r1, &ry) {
        Some(m) => m,
        None => {
            return None;
        },
    };
    let rz = Mat4::rotation_z(n.rotation.z);
    let r3 = match mat_mul_checked(&r2, &rz) {
        Some(m) => m,
        None => {
            return None;
        },
    };
    let neg_ref = Vec3 {
        x: -n.reference_point.x,
        y: -n.reference_point.y,
        z: -n.reference_point.z,
    };
    let t_negref = Mat4::translation(&neg_ref);
    let pivot = match mat_mul_checked(&r3, &t_negref) {
        Some(m) => m,
        None => {
            return None;
        },
    };
    let t_pos = Mat4::translation(&n.position);
    let placed = match mat_mul_checked(&t_pos, &pivot) {
        Some(m) => m,
        None => {
            return None;
        },
    };
    let s = Mat4::scaling(&n.scale);
    mat_mul_checked(&placed, &s)
}

/// Recomputes every cached world transform top-down: each node's world
/// transform becomes its parent's — already recomputed, since parents come
/// first in the arena — times its own local matrix; a root composes with
/// the initial transform instead. Returns `false`, leaving the structure
/// and local fields untouched, exactly when some product leaves the entry
/// range.
#[verifier::rlimit(100)]
pub fn update_node_transformations(g: &mut SceneGraph, initial_transform: &Mat4) -> (ok: bool)
    requires
        old(g).wf(),
        m_bounded(initial_transform@),
    ensures
        final(g).wf(),
        same_structure(*old(g), *final(g)),
        ok <==> (forall|j: int|
            0 <= j < old(g).nodes@.len() ==> #[trigger] world_ok(*old(g), j, initial_transform@)),
        ok ==> (forall|j: int|
            0 <= j < old(g).nodes@.len()
                ==> (#[trigger] final(g).nodes@[j]).current_transformation_matrix@ == world_spec(
                *old(g),
                j,
                initial_transform@,
            )),
{
    let n = g.nodes.len();
    let mut i: usize = 0;
    while i < n
        invariant
            g.wf(),
            old(g).wf(),
            same_structure(*old(g), *g),
            m_bounded(initial_transform@),
            n == g.nodes@.len(),
            n == old(g).nodes@.len(),
            0 <= i <= n,
            forall|j: int| 0 <= j < i ==> #[trigger] world_ok(*old(g), j, initial_transform@),
            forall|j: int|
                0 <= j < i ==> (#[trigger] g.nodes@[j]).current_transformation_matrix@
                    == world_spec(*old(g), j, initial_transform@),
            forall|j: int| i <= j < n ==> #[trigger] g.nodes@[j] == old(g).nodes@[j],
        decreases n - i,
    {
        let local = match local_matrix(&g.nodes[i]) {
            Some(m) => m,
            None => {
                proof {
                    assert(!local_ok(old(g).nodes@[i as int]));
                    assert(!world_ok(*old(g), i as int, initial_transform@));
                }
                return false;
            },
        };
        let parent_world: Mat4 = match g.nodes[i].parent {
            Some(p) => g.nodes[p].current_transformation_matrix,
            None => *initial_transform,
        };
        proof {
            if g.nodes@[i as int].parent is Some {
                assert(parent_link_ok(*g, i as int));
            }
        }
        let w = match mat_mul_checked(&parent_world, &local) {
            Some(m) => m,
            None => {
                proof {
                    assert(!world_ok(*old(g), i as int, initial_transform@));
                }
                return false;
            },
        };
        proof {
            assert(g.nodes@[i as int] == old(g).nodes@[i as int]);
            assert(local_ok(old(g).nodes@[i as int]));
            assert(local@ == local_spec(old(g).nodes@[i as int]));
            if old(g).nodes@[i as int].parent is Some {
                assert(parent_link_ok(*old(g), i as int));
                let p = old(g).nodes@[i as int].parent->0 as int;
                assert(0 <= p < i);
                assert(world_ok(*old(g), p, initial_transform@));
                assert(parent_world@ == world_spec(*old(g), p, initial_transform@));
                assert(m_bounded(mul_spec(
                    world_spec(*old(g), p, initial_transform@),
                    local_spec(old(g).nodes@[i as int]),
                )));
            } else {
                assert(parent_world@ == initial_transform@);
                assert(m_bounded(mul_spec(initial_transform@, local_spec(old(g).nodes@[i as int]))));
            }
            assert(world_ok(*old(g), i as int, initial_transform@));
            assert(w@ == world_spec(*old(g), i as int, initial_transform@));
        }
        g.set_world(i, w);
        i = i + 1;
    }
    true
}

/// Composition-order law: a node's world transform is its parent's world
/// transform times its own local matrix; a root's is the initial transform
/// times its local matrix — the local matrix itself when the initial
/// transform is the identity.
pub proof fn lemma_world_composition(g: SceneGraph, i: int, init: Mat4i)
    requires
        g.wf(),
        0 <= i < g.nodes@.len(),
    ensures
        g.nodes@[i].parent is Some ==> world_spec(g, i, init) == mul_spec(
            world_spec(g, g.nodes@[i].parent->0 as int, init),
            local_spec(g.nodes@[i]),
        ),
        g.nodes@[i].parent is None ==> world_spec(g, i, init) == mul_spec(
            init,
            local_spec(g.nodes@[i]),
        ),
        g.nodes@[i].parent is None && init == ident_spec() ==> world_spec(g, i, init)
            == local_spec(g.nodes@[i]),
{
    if g.nodes@[i].parent is Some {
        assert(parent_link_ok(g, i));
    } else {
        lemma_ident_mul_left(local_spec(g.nodes@[i]));
    }
}

/// Idempotence of propagation: world transforms depend only on the local
/// fields and the structure, which a propagation pass leaves unchanged, so
/// running the pass twice caches bit-identical world transforms.
pub proof fn lemma_propagation_idempotent(g1: SceneGraph, g2: SceneGraph, i: int, init: Mat4i)
    requires
        same_structure(g1, g2),
    ensures
        world_spec(g1, i, init) == world_spec(g2, i, init),
    decreases i,
{
    if 0 <= i < g1.nodes@.len() {
        reveal(local_spec);
        assert(node_same_but_world(g1.nodes@[i], g2.nodes@[i]));
        assert(local_spec(g1.nodes@[i]) == local_spec(g2.nodes@[i]));
        match g1.nodes@[i].parent {
            Some(p) => {
                if 0 <= p < i {
                    lemma_propagation_idempotent(g1, g2, p as int, init);
                }
            },
            None => {},
        }
    }
}

/// A matrix whose translation column is zero and whose bottom row is that
/// of the identity: rotations and scalings have this shape.
pub open spec fn linear_only(m: Mat4i) -> bool {
    &&& m.m03 == 0
    &&& m.m13 == 0
    &&& m.m23 == 0
    &&& m.m30 == 0
    &&& m.m31 == 0
    &&& m.m32 == 0
    &&& m.m33 == ONE as int
}

/// Products of matrices without a translation part have no translation
/// part.
proof fn lemma_mul_linear_only(a: Mat4i, b: Mat4i)
    requires
        linear_only(a),
        linear_only(b),
    ensures
        linear_only(mul_spec(a, b)),
{
    broadcast use vstd::arithmetic::mul::group_mul_basics;
    broadcast use vstd::arithmetic::mul::lemma_mul_by_zero_is_zero;

    lemma_div_of0(ONE as int);
    lemma_div_one_unit(ONE as int);
}

/// A node with reference point at the origin rotates in place: whatever
/// its rotation and scale, the translation column of its local matrix is
/// exactly its position.
pub proof fn lemma_zero_reference_rotates_in_place(n: SceneNode)
    requires
        n.reference_point == (Vec3 { x: 0, y: 0, z: 0 }),
    ensures
        local_spec(n).m03 == n.position.x,
        local_spec(n).m13 == n.position.y,
        local_spec(n).m23 == n.position.z,
{
    reveal(local_spec);
    broadcast use vstd::arithmetic::mul::group_mul_basics;
    broadcast use vstd::arithmetic::mul::lemma_mul_by_zero_is_zero;

    let rx = rotation_x_spec(n.rotation.x as int);
    let ry = rotation_y_spec(n.rotation.y as int);
    let rz = rotation_z_spec(n.rotation.z as int);
    let t_pos = translation_spec(n.position.x as int, n.position.y as int, n.position.z as int);
    let s = scaling_spec(n.scale.x as int, n.scale.y as int, n.scale.z as int);
    assert(translation_spec(0, 0, 0) == ident_spec());
    lemma_ident_mul_left(rx);
    let r2 = mul_spec(rx, ry);
    let r3 = mul_spec(r2, rz);
    lemma_mul_linear_only(rx, ry);
    lemma_mul_linear_only(r2, rz);
    lemma_ident_mul_right(r3);
    let placed = mul_spec(t_pos, r3);
    lemma_div_of0(ONE as int);
    lemma_div_one_unit(n.position.x as int);
    lemma_div_one_unit(n.position.y as int);
    lemma_div_one_unit(n.position.z as int);
    assert(placed.m03 == n.position.x);
    assert(placed.m13 == n.position.y);
    assert(placed.m23 == n.position.z);
    lemma_div_one_unit(placed.m03);
    lemma_div_one_unit(placed.m13);
    lemma_div_one_unit(placed.m23);
    assert(local_spec(n) == mul_spec(placed, s));
}


/// A node with a nonzero reference point orbits it: with unit scale and a
/// pure rotation by `theta` about the y axis pivoted at `q`, the local
/// matrix sends the node origin to `position + q - R(theta) q`, each
/// coordinate one rescaled fixed-point combination, and leaves the height
/// untouched. As `theta` sweeps, the offset `q - R(theta) q` circles the
/// fixed point `position + q` (exactly up to the rational sine).
#[verifier::spinoff_prover]
pub proof fn lemma_orbit_about_y(n: SceneNode)
    requires
        n.scale == (Vec3 { x: ONE, y: ONE, z: ONE }),
        n.rotation.x == 0,
        n.rotation.z == 0,
    ensures
        local_spec(n).m03 == n.position.x + div_one(
            (ONE as int) * n.reference_point.x - cos_spec(n.rotation.y as int)
                * n.reference_point.x - sin_spec(n.rotation.y as int) * n.reference_point.z,
        ),
        local_spec(n).m13 == n.position.y,
        local_spec(n).m23 == n.position.z + div_one(
            (ONE as int) * n.reference_point.z + sin_spec(n.rotation.y as int)
                * n.reference_point.x - cos_spec(n.rotation.y as int) * n.reference_point.z,
        ),
{
    reveal(local_spec);
    broadcast use vstd::arithmetic::mul::group_mul_basics;
    broadcast use vstd::arithmetic::mul::lemma_mul_by_zero_is_zero;

    let th = n.rotation.y as int;
    let qx = n.reference_point.x as int;
    let qy = n.reference_point.y as int;
    let qz = n.reference_point.z as int;
    let px = n.position.x as int;
    let py = n.position.y as int;
    let pz = n.position.z as int;
    let c = cos_spec(th);
    let si = sin_spec(th);
    lemma_sin_zero();
    lemma_cos_zero();
    assert(rotation_x_spec(0) == ident_spec());
    assert(rotation_z_spec(0) == ident_spec());
    assert(scaling_spec(ONE as int, ONE as int, ONE as int) == ident_spec());
    let t_ref = translation_spec(qx, qy, qz);
    let t_negref = translation_spec(-qx, -qy, -qz);
    lemma_ident_mul_right(t_ref);
    lemma_div_of0(ONE as int);
    lemma_div_one_unit(c);
    lemma_div_one_unit(si);
    lemma_div_one_unit(-si);
    lemma_div_one_unit(ONE as int);
    lemma_div_one_unit(qx);
    lemma_div_one_unit(qy);
    lemma_div_one_unit(qz);
    let r2 = mul_spec(t_ref, rotation_y_spec(th));
    assert(r2 == (Mat4i {
        m00: c, m01: 0, m02: si, m03: qx,
        m10: 0, m11: ONE as int, m12: 0, m13: qy,
        m20: -si, m21: 0, m22: c, m23: qz,
        m30: 0, m31: 0, m32: 0, m33: ONE as int,
    }));
    let pivot = mul_spec(r2, t_negref);
    assert(c * -qx == -(c * qx)) by (nonlinear_arith);
    assert(si * -qz == -(si * qz)) by (nonlinear_arith);
    assert(qx * (ONE as int) == (ONE as int) * qx) by (nonlinear_arith);
    assert(pivot.m03 == div_one((ONE as int) * qx - c * qx - si * qz));
    assert((ONE as int) * -qy + qy * (ONE as int) == 0) by (nonlinear_arith);
    assert(pivot.m13 == 0);
    assert(-si * -qx == si * qx) by (nonlinear_arith);
    assert(c * -qz == -(c * qz)) by (nonlinear_arith);
    assert(qz * (ONE as int) == (ONE as int) * qz) by (nonlinear_arith);
    assert(pivot.m23 == div_one((ONE as int) * qz + si * qx - c * qz));
    assert(pivot.m33 == ONE as int);
    let t_pos = translation_spec(px, py, pz);
    let placed = mul_spec(t_pos, pivot);
    lemma_div_one_unit(pivot.m03 + px);
    lemma_div_one_unit(pivot.m13 + py);
    lemma_div_one_unit(pivot.m23 + pz);
    assert((ONE as int) * pivot.m03 + px * (ONE as int) == (ONE as int) * (pivot.m03 + px))
        by (nonlinear_arith);
    assert((ONE as int) * pivot.m13 + py * (ONE as int) == (ONE as int) * (pivot.m13 + py))
        by (nonlinear_arith);
    assert((ONE as int) * pivot.m23 + pz * (ONE as int) == (ONE as int) * (pivot.m23 + pz))
        by (nonlinear_arith);
    assert(placed.m03 == pivot.m03 + px);
    assert(placed.m13 == py);
    assert(placed.m23 == pivot.m23 + pz);
    lemma_ident_mul_right(placed);
    assert(local_spec(n) == placed);
}

/// Changing only transform fields of one node (neither its children nor its
/// parent nor its index bounds) keeps the graph well-formed.
proof fn lemma_wf_after_field_update(g1: SceneGraph, g2: SceneGraph, i: int)
    requires
        g1.wf(),
        g2.nodes@.len() == g1.nodes@.len(),
        g2.edges@ == g1.edges@,
        0 <= i < g1.nodes@.len(),
        forall|j: int| 0 <= j < g1.nodes@.len() && j != i ==> g1.nodes@[j] == (#[trigger] g2.nodes@[j]),
        node_fields_ok(g2.nodes@[i]),
        m_bounded(g2.nodes@[i].current_transformation_matrix@),
        g2.nodes@[i].children@ == g1.nodes@[i].children@,
        g2.nodes@[i].parent == g1.nodes@[i].parent,
    ensures
        g2.wf(),
{
    let n = g1.nodes@.len() as int;
    lemma_attached_count_congruence(g1, g2, n);
    assert forall|c: int|
        0 <= c < n && (#[trigger] g2.nodes@[c]).parent is Some implies parent_link_ok(g2, c) by {
        assert(g1.nodes@[c].parent is Some);
        assert(parent_link_ok(g1, c));
        let p = g1.nodes@[c].parent->0 as int;
        let k = choose|k: int|
            0 <= k < g1.nodes@[p].children@.len() && (#[trigger] g1.nodes@[p].children@[k]) as int
                == c;
        assert(g2.nodes@[p].children@[k] as int == c);
    }
}

} // verus!
