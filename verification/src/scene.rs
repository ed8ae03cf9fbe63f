//! Scene assembly and animation: the helicopter instances, the per-frame
//! animation updater that drives their rotors and flight path, and the
//! builders that wire the fixed hierarchy — a structural root, the terrain
//! under it, and one body with door and rotors per helicopter instance.

use vstd::prelude::*;
use crate::fixed::ONE;
use crate::mat4::Vec3;
use crate::scene_graph::{SceneGraph, SceneNode};
use crate::toolbox::{Heading, simple_heading_animation, PATH_RADIUS, PATH_PITCH_AMPL,
    PATH_ROLL_AMPL};

verus! {

/// Largest raw time accepted by the animation updater.
pub const TIME_MAX: i64 = 0x100_0000_0000;

/// Largest raw per-instance offset accepted by the animation updater.
pub const OFFSET_MAX: i64 = 0x1_0000_0000;

/// Largest instance id accepted by the animation updater.
pub const ID_MAX: u32 = 0x1_0000;

/// Pivot of the door, at its hinge (1.0, 1.5, 0.0).
pub const DOOR_REF_X: i64 = 65536;
pub const DOOR_REF_Y: i64 = 98304;

/// Pivot of the main rotor, at its hub (0.0, 2.3, 0.0).
pub const MAIN_ROTOR_REF_Y: i64 = 150733;

/// Pivot of the tail rotor, at its hub (0.35, 2.3, 10.4).
pub const TAIL_ROTOR_REF_X: i64 = 22938;
pub const TAIL_ROTOR_REF_Y: i64 = 150733;
pub const TAIL_ROTOR_REF_Z: i64 = 681574;

/// Raw angle advanced by the main rotor per raw second.
pub const MAIN_ROTOR_RATE: i64 = 10;

/// Raw angle advanced by the tail rotor per raw second.
pub const TAIL_ROTOR_RATE: i64 = 15;

/// The drawable handles a helicopter model was loaded into: one vertex
/// array and index count per part.
#[derive(Clone, Copy, PartialEq, Eq, Structural, Debug)]
pub struct HelicopterVaos {
    pub body_vao: u32,
    pub body_index_count: i32,
    pub door_vao: u32,
    pub door_index_count: i32,
    pub main_rotor_vao: u32,
    pub main_rotor_index_count: i32,
    pub tail_rotor_vao: u32,
    pub tail_rotor_index_count: i32,
}

/// One helicopter instance: its id, used to phase-offset its animation,
/// and the arena indices of its four nodes.
#[derive(Clone, Copy, PartialEq, Eq, Structural, Debug)]
pub struct Helicopter {
    pub id: u32,
    pub body: usize,
    pub door: usize,
    pub main_rotor: usize,
    pub tail_rotor: usize,
}

/// The helicopter's nodes all lie in the arena, in creation order.
pub open spec fn heli_wf(h: Helicopter, g: SceneGraph) -> bool {
    h.body < h.door < h.main_rotor < h.tail_rotor < g.nodes@.len()
}

impl Helicopter {
    /// The time for this specific helicopter, phase-offset by its id so
    /// simultaneous instances stay visually desynchronized.
    pub fn get_time_with_offset(&self, time: i64, offset: i64) -> (r: i64)
        requires
            0 <= time <= TIME_MAX,
            0 <= offset <= OFFSET_MAX,
            self.id <= ID_MAX,
        ensures
            r == time + offset * self.id,
            0 <= r <= TIME_MAX + OFFSET_MAX * ID_MAX,
    {
        proof {
            crate::fixed::lemma_prod_bound(
                offset as int,
                self.id as int,
                OFFSET_MAX as int,
                ID_MAX as int,
            );
        }
        time + offset * (self.id as i64)
    }

    /// Spins the rotors: the main rotor's angle about its vertical axis
    /// and the tail rotor's about its lateral axis both grow linearly
    /// with the offset time. Touches nothing but the two rotation fields.
    pub fn update_rotors(&self, g: &mut SceneGraph, time: i64, offset: i64)
        requires
            old(g).wf(),
            heli_wf(*self, *old(g)),
            0 <= time <= TIME_MAX,
            0 <= offset <= OFFSET_MAX,
            self.id <= ID_MAX,
        ensures
            final(g).wf(),
            final(g).nodes@.len() == old(g).nodes@.len(),
            final(g).edges@ == old(g).edges@,
            final(g).nodes@[self.main_rotor as int] == (SceneNode {
                rotation: (Vec3 {
                    x: old(g).nodes@[self.main_rotor as int].rotation.x,
                    y: final(g).nodes@[self.main_rotor as int].rotation.y,
                    z: old(g).nodes@[self.main_rotor as int].rotation.z,
                }),
                ..old(g).nodes@[self.main_rotor as int]
            }),
            final(g).nodes@[self.main_rotor as int].rotation.y == (time + offset * self.id)
                * MAIN_ROTOR_RATE,
            final(g).nodes@[self.tail_rotor as int] == (SceneNode {
                rotation: (Vec3 {
                    x: final(g).nodes@[self.tail_rotor as int].rotation.x,
                    y: old(g).nodes@[self.tail_rotor as int].rotation.y,
                    z: old(g).nodes@[self.tail_rotor as int].rotation.z,
                }),
                ..old(g).nodes@[self.tail_rotor as int]
            }),
            final(g).nodes@[self.tail_rotor as int].rotation.x == (time + offset * self.id)
                * TAIL_ROTOR_RATE,
            forall|i: int|
                0 <= i < old(g).nodes@.len() && i != self.main_rotor && i != self.tail_rotor
                    ==> final(g).nodes@[i] == old(g).nodes@[i],
    {
        let elapsed = self.get_time_with_offset(time, offset);
        let mut r = g.nodes[self.main_rotor].rotation;
        r.y = elapsed * MAIN_ROTOR_RATE;
        g.set_rotation(self.main_rotor, r);
        let mut r2 = g.nodes[self.tail_rotor].rotation;
        r2.x = elapsed * TAIL_ROTOR_RATE;
        g.set_rotation(self.tail_rotor, r2);
    }

    /// Flies the body along the path: samples the closed-form heading at
    /// the offset time and writes it into the body's position in the
    /// ground plane and its three rotation angles.
    pub fn update_heading(&self, g: &mut SceneGraph, time: i64, offset: i64)
        requires
            old(g).wf(),
            heli_wf(*self, *old(g)),
            0 <= time <= TIME_MAX,
            0 <= offset <= OFFSET_MAX,
            self.id <= ID_MAX,
        ensures
            final(g).wf(),
            final(g).nodes@.len() == old(g).nodes@.len(),
            final(g).edges@ == old(g).edges@,
            final(g).nodes@[self.body as int] == (SceneNode {
                position: final(g).nodes@[self.body as int].position,
                rotation: final(g).nodes@[self.body as int].rotation,
                ..old(g).nodes@[self.body as int]
            }),
            ({
                let h = heading_at(time + offset * self.id);
                &&& final(g).nodes@[self.body as int].position.x == h.x
                &&& final(g).nodes@[self.body as int].position.y == old(
                    g,
                ).nodes@[self.body as int].position.y
                &&& final(g).nodes@[self.body as int].position.z == h.z
                &&& final(g).nodes@[self.body as int].rotation.x == h.pitch
                &&& final(g).nodes@[self.body as int].rotation.y == h.yaw
                &&& final(g).nodes@[self.body as int].rotation.z == h.roll
            }),
            forall|i: int|
                0 <= i < old(g).nodes@.len() && i != self.body ==> final(g).nodes@[i] == old(
                    g,
                ).nodes@[i],
    {
        let elapsed = self.get_time_with_offset(time, offset);
        let heading = simple_heading_animation(elapsed);
        let mut p = g.nodes[self.body].position;
        p.x = heading.x;
        p.z = heading.z;
        g.set_position(self.body, p);
        let r = Vec3 { x: heading.pitch, y: heading.yaw, z: heading.roll };
        g.set_rotation(self.body, r);
    }
}

/// What the path sample at a raw time holds, field by field.
pub open spec fn heading_at(t: int) -> Heading {
    Heading {
        x: crate::fixed::fx_mul_spec(PATH_RADIUS as int, crate::fixed::sin_spec(t)) as i64,
        z: crate::fixed::fx_mul_spec(PATH_RADIUS as int, crate::fixed::cos_spec(t)) as i64,
        pitch: crate::fixed::fx_mul_spec(PATH_PITCH_AMPL as int, crate::fixed::cos_spec(t)) as i64,
        yaw: t as i64,
        roll: crate::fixed::fx_mul_spec(PATH_ROLL_AMPL as int, crate::fixed::sin_spec(t)) as i64,
    }
}

/// The four nodes of helicopter `t` in a batch that started at `base`:
/// body, door, main rotor, tail rotor, in creation order.
pub open spec fn heli_indices(base: int, t: int) -> Helicopter {
    Helicopter {
        id: t as u32,
        body: (base + 4 * t) as usize,
        door: (base + 4 * t + 1) as usize,
        main_rotor: (base + 4 * t + 2) as usize,
        tail_rotor: (base + 4 * t + 3) as usize,
    }
}

/// Identity transform fields: origin position, zero rotation, unit scale.
pub open spec fn identity_fields(n: SceneNode) -> bool {
    &&& n.position == (Vec3 { x: 0, y: 0, z: 0 })
    &&& n.rotation == (Vec3 { x: 0, y: 0, z: 0 })
    &&& n.scale == (Vec3 { x: ONE, y: ONE, z: ONE })
}

/// The built shape of one helicopter: the body holds exactly its three
/// parts as children; every node starts with identity transform fields;
/// the parts carry their vertex arrays, the one shared shader, and the
/// physical pivots, while the body pivots about its own origin.
pub open spec fn heli_built(g: SceneGraph, h: Helicopter, shader_id: u32, vaos: HelicopterVaos)
    -> bool {
    &&& heli_wf(h, g)
    &&& g.nodes@[h.body as int].children@ =~= seq![h.door, h.main_rotor, h.tail_rotor]
    &&& identity_fields(g.nodes@[h.body as int])
    &&& identity_fields(g.nodes@[h.door as int])
    &&& identity_fields(g.nodes@[h.main_rotor as int])
    &&& identity_fields(g.nodes@[h.tail_rotor as int])
    &&& g.nodes@[h.body as int].reference_point == (Vec3 { x: 0, y: 0, z: 0 })
    &&& g.nodes@[h.body as int].vao_id == vaos.body_vao
    &&& g.nodes@[h.body as int].index_count == vaos.body_index_count
    &&& g.nodes@[h.body as int].shader_id == shader_id
    &&& g.nodes@[h.door as int].vao_id == vaos.door_vao
    &&& g.nodes@[h.door as int].index_count == vaos.door_index_count
    &&& g.nodes@[h.door as int].shader_id == shader_id
    &&& g.nodes@[h.door as int].reference_point == (Vec3 {
        x: DOOR_REF_X,
        y: DOOR_REF_Y,
        z: 0,
    })
    &&& g.nodes@[h.main_rotor as int].vao_id == vaos.main_rotor_vao
    &&& g.nodes@[h.main_rotor as int].index_count == vaos.main_rotor_index_count
    &&& g.nodes@[h.main_rotor as int].shader_id == shader_id
    &&& g.nodes@[h.main_rotor as int].reference_point == (Vec3 {
        x: 0,
        y: MAIN_ROTOR_REF_Y,
        z: 0,
    })
    &&& g.nodes@[h.tail_rotor as int].vao_id == vaos.tail_rotor_vao
    &&& g.nodes@[h.tail_rotor as int].index_count == vaos.tail_rotor_index_count
    &&& g.nodes@[h.tail_rotor as int].shader_id == shader_id
    &&& g.nodes@[h.tail_rotor as int].reference_point == (Vec3 {
        x: TAIL_ROTOR_REF_X,
        y: TAIL_ROTOR_REF_Y,
        z: TAIL_ROTOR_REF_Z,
    })
    &&& g.nodes@[h.door as int].children@ =~= Seq::<usize>::empty()
    &&& g.nodes@[h.main_rotor as int].children@ =~= Seq::<usize>::empty()
    &&& g.nodes@[h.tail_rotor as int].children@ =~= Seq::<usize>::empty()
}

/// Builds `amount` helicopter instances in the arena: for each, a body
/// node with three children — door, main rotor, tail rotor — each child
/// pivoted at its physical hinge or hub. Bodies are left detached for the
/// caller to place; instances are numbered `0` up.
#[verifier::rlimit(100)]
pub fn make_helicopters(
    g: &mut SceneGraph,
    shader_id: u32,
    amount: u32,
    vaos: &HelicopterVaos,
) -> (hs: Vec<Helicopter>)
    requires
        old(g).wf(),
        amount <= ID_MAX,
        old(g).nodes@.len() + 4 * amount < usize::MAX,
    ensures
        final(g).wf(),
        hs@.len() == amount,
        final(g).nodes@.len() == old(g).nodes@.len() + 4 * amount,
        final(g).edges@ == old(g).edges@ + 3 * amount,
        forall|i: int| 0 <= i < old(g).nodes@.len() ==> final(g).nodes@[i] == old(g).nodes@[i],
        forall|t: int|
            0 <= t < amount ==> #[trigger] hs@[t] == heli_indices(old(g).nodes@.len() as int, t),
        forall|t: int|
            0 <= t < amount ==> heli_built(*final(g), #[trigger] hs@[t], shader_id, *vaos),
        forall|t: int|
            0 <= t < amount ==> (#[trigger] final(g).nodes@[hs@[t].body as int]).parent is None,
{
    let ghost base = g.nodes@.len() as int;
    let mut hs: Vec<Helicopter> = Vec::new();
    let mut idx: u32 = 0;
    while idx < amount
        invariant
            g.wf(),
            old(g).wf(),
            amount <= ID_MAX,
            base == old(g).nodes@.len(),
            base + 4 * amount < usize::MAX,
            0 <= idx <= amount,
            hs@.len() == idx,
            g.nodes@.len() == base + 4 * idx,
            g.edges@ == old(g).edges@ + 3 * idx,
            forall|i: int| 0 <= i < base ==> g.nodes@[i] == old(g).nodes@[i],
            forall|t: int| 0 <= t < idx ==> #[trigger] hs@[t] == heli_indices(base, t),
            forall|t: int| 0 <= t < idx ==> heli_built(*g, #[trigger] hs@[t], shader_id, *vaos),
            forall|t: int|
                0 <= t < idx ==> (#[trigger] g.nodes@[hs@[t].body as int]).parent is None,
        decreases amount - idx,
    {
        let ghost g_iter = *g;
        let body = SceneNode::from_vao(vaos.body_vao, shader_id, vaos.body_index_count);
        let b = g.add_node(body);
        let mut door = SceneNode::from_vao(vaos.door_vao, shader_id, vaos.door_index_count);
        door.reference_point = Vec3 { x: DOOR_REF_X, y: DOOR_REF_Y, z: 0 };
        let d = g.add_node(door);
        let mut main_rot = SceneNode::from_vao(
            vaos.main_rotor_vao,
            shader_id,
            vaos.main_rotor_index_count,
        );
        main_rot.reference_point = Vec3 { x: 0, y: MAIN_ROTOR_REF_Y, z: 0 };
        let m = g.add_node(main_rot);
        let mut tail_rot = SceneNode::from_vao(
            vaos.tail_rotor_vao,
            shader_id,
            vaos.tail_rotor_index_count,
        );
        tail_rot.reference_point = Vec3 {
            x: TAIL_ROTOR_REF_X,
            y: TAIL_ROTOR_REF_Y,
            z: TAIL_ROTOR_REF_Z,
        };
        let t = g.add_node(tail_rot);
        g.add_child(b, d);
        g.add_child(b, m);
        g.add_child(b, t);
        let h = Helicopter { id: idx, body: b, door: d, main_rotor: m, tail_rotor: t };
        hs.push(h);
        proof {
            assert(h == heli_indices(base, idx as int));
            assert(g.nodes@[h.body as int].children@ =~= seq![h.door, h.main_rotor, h.tail_rotor]);
            assert(heli_built(*g, h, shader_id, *vaos));
            assert forall|t2: int| 0 <= t2 < idx + 1 implies heli_built(
                *g,
                #[trigger] hs@[t2],
                shader_id,
                *vaos,
            ) by {
                if t2 < idx {
                    assert(heli_built(g_iter, hs@[t2], shader_id, *vaos));
                    assert(hs@[t2] == heli_indices(base, t2));
                }
            }
            assert forall|t2: int|
                0 <= t2 < idx + 1 implies (
            #[trigger] g.nodes@[hs@[t2].body as int]).parent is None by {
                if t2 < idx {
                    assert(g_iter.nodes@[hs@[t2].body as int].parent is None);
                    assert(hs@[t2] == heli_indices(base, t2));
                }
            }
        }
        idx = idx + 1;
    }
    hs
}

/// Builds the whole scene: a structural root, the terrain under it, and
/// `helicopters` helicopter instances whose bodies hang off the terrain.
/// Returns the graph — its root at index 0, fully attached, ready for
/// propagation — together with the instances for the animation updater.
#[verifier::rlimit(100)]
pub fn make_scene_graph(
    helicopters: u32,
    terrain_vao: u32,
    terrain_index_count: i32,
    shader_id: u32,
    vaos: &HelicopterVaos,
) -> (r: (SceneGraph, Vec<Helicopter>))
    requires
        helicopters <= ID_MAX,
    ensures
        r.0.wf(),
        r.0.nodes@.len() == 2 + 4 * helicopters,
        r.0.nodes@[0].parent is None,
        r.0.nodes@[0].vao_id == 0,
        forall|j: int| 1 <= j < r.0.nodes@.len() ==> (#[trigger] r.0.nodes@[j]).parent is Some,
        r.0.edges@ == r.0.nodes@.len() - 1,
        r.0.nodes@[0].children@ =~= seq![1usize],
        r.0.nodes@[1].vao_id == terrain_vao,
        r.0.nodes@[1].index_count == terrain_index_count,
        r.0.nodes@[1].shader_id == shader_id,
        r.0.nodes@[1].children@.len() == helicopters,
        forall|t: int|
            0 <= t < helicopters ==> #[trigger] r.0.nodes@[1].children@[t] == r.1@[t].body,
        forall|j: int|
            1 <= j < r.0.nodes@.len() ==> (#[trigger] r.0.nodes@[j]).shader_id == shader_id,
        r.1@.len() == helicopters,
        forall|t: int| 0 <= t < helicopters ==> #[trigger] r.1@[t] == heli_indices(2, t),
        forall|t: int|
            0 <= t < helicopters ==> heli_wf(#[trigger] r.1@[t], r.0) && r.1@[t].id == t,
        forall|t: int|
            0 <= t < helicopters ==> heli_built(r.0, #[trigger] r.1@[t], shader_id, *vaos),
        forall|t: int|
            0 <= t < helicopters ==> (#[trigger] r.0.nodes@[r.1@[t].body as int]).parent == Some(
                1usize,
            ),
{
    let mut g = SceneGraph::new();
    let root = g.add_node(SceneNode::new());
    let terrain_node = SceneNode::from_vao(terrain_vao, shader_id, terrain_index_count);
    let terrain = g.add_node(terrain_node);
    g.add_child(root, terrain);
    let helis = make_helicopters(&mut g, shader_id, helicopters, vaos);
    let ghost g_built = g;
    let mut k: usize = 0;
    while k < helis.len()
        invariant
            g.wf(),
            helis@.len() == helicopters,
            helicopters <= ID_MAX,
            g.nodes@.len() == 2 + 4 * helicopters,
            g.edges@ == 1 + 3 * helicopters + k,
            0 <= k <= helicopters,
            forall|t: int| 0 <= t < helicopters ==> #[trigger] helis@[t] == heli_indices(2, t),
            g.nodes@[0].parent is None,
            g.nodes@[0].vao_id == 0,
            g.nodes@[0].children@ =~= seq![1usize],
            g.nodes@[1].parent is Some,
            g.nodes@[1].vao_id == terrain_vao,
            g.nodes@[1].index_count == terrain_index_count,
            g.nodes@[1].shader_id == shader_id,
            g.nodes@[1].children@.len() == k,
            forall|t2: int|
                0 <= t2 < k ==> #[trigger] g.nodes@[1].children@[t2] == helis@[t2].body,
            forall|t: int|
                0 <= t < helicopters ==> heli_built_shape(g, helis@[t], k as int, t),
            forall|t: int|
                0 <= t < helicopters ==> heli_built(g, #[trigger] helis@[t], shader_id, *vaos),
            forall|t2: int|
                0 <= t2 < k ==> (#[trigger] g.nodes@[helis@[t2].body as int]).parent == Some(
                    1usize,
                ),
        decreases helis@.len() - k,
    {
        proof {
            assert(heli_built_shape(g, helis@[k as int], k as int, k as int));
        }
        let b = helis[k].body;
        let ghost g_iter = g;
        g.add_child(1, b);
        proof {
            assert forall|t: int| 0 <= t < helicopters implies heli_built_shape(
                g,
                helis@[t],
                k + 1,
                t,
            ) by {
                assert(helis@[t] == heli_indices(2, t));
            }
            assert forall|t: int| 0 <= t < helicopters implies heli_built(
                g,
                #[trigger] helis@[t],
                shader_id,
                *vaos,
            ) by {
                assert(heli_built(g_iter, helis@[t], shader_id, *vaos));
                assert(helis@[t] == heli_indices(2, t));
            }
        }
        k = k + 1;
    }
    proof {
        assert forall|j: int| 1 <= j < g.nodes@.len() implies (#[trigger] g.nodes@[j]).parent
            is Some && g.nodes@[j].shader_id == shader_id by {
            if j >= 2 {
                let t = (j - 2) / 4;
                assert(heli_built_shape(g, helis@[t], helicopters as int, t));
                assert(heli_built(g, helis@[t], shader_id, *vaos));
            }
        }
    }
    (g, helis)
}

/// The shape of helicopter `t` while bodies are being attached: parts
/// always hang off the body; the body hangs off the terrain once the
/// attachment loop has passed it.
pub open spec fn heli_built_shape(g: SceneGraph, h: Helicopter, attached_upto: int, t: int)
    -> bool {
    &&& heli_wf(h, g)
    &&& h.body == 2 + 4 * t
    &&& h.door == 3 + 4 * t
    &&& h.main_rotor == 4 + 4 * t
    &&& h.tail_rotor == 5 + 4 * t
    &&& g.nodes@[h.door as int].parent is Some
    &&& g.nodes@[h.main_rotor as int].parent is Some
    &&& g.nodes@[h.tail_rotor as int].parent is Some
    &&& (t < attached_upto ==> g.nodes@[h.body as int].parent is Some)
    &&& (t >= attached_upto ==> g.nodes@[h.body as int].parent is None)
}

} // verus!
