use gloom::fixed::{ONE, PI_FX};
use gloom::mat4::{Mat4, Vec3};
use gloom::render::draw_scene;
use gloom::scene::{make_scene_graph, HelicopterVaos};
use gloom::scene_graph::{update_node_transformations, SceneGraph, SceneNode};

fn heli_vaos() -> HelicopterVaos {
    HelicopterVaos {
        body_vao: 2,
        body_index_count: 30,
        door_vao: 3,
        door_index_count: 12,
        main_rotor_vao: 4,
        main_rotor_index_count: 18,
        tail_rotor_vao: 5,
        tail_rotor_index_count: 9,
    }
}

#[test]
fn world_transform_translates_child_exactly() {
    let mut g = SceneGraph::new();
    let root = g.add_node(SceneNode::new());
    let mut c = SceneNode::new();
    c.position = Vec3 { x: ONE, y: 0, z: 0 };
    let ci = g.add_node(c);
    g.add_child(root, ci);
    let mut gch = SceneNode::new();
    gch.position = Vec3 { x: 0, y: ONE, z: 0 };
    let gi = g.add_node(gch);
    g.add_child(ci, gi);
    let ok = update_node_transformations(&mut g, &Mat4::identity());
    assert!(ok);
    let wc = g.nodes[ci].current_transformation_matrix;
    assert_eq!(wc.m03, ONE);
    assert_eq!(wc.m13, 0);
    assert_eq!(wc.m23, 0);
    assert_eq!(wc.m00, ONE);
    assert_eq!(wc.m11, ONE);
    assert_eq!(wc.m22, ONE);
    assert_eq!(wc.m33, ONE);
    let wg = g.nodes[gi].current_transformation_matrix;
    assert_eq!(wg.m03, ONE);
    assert_eq!(wg.m13, ONE);
    assert_eq!(wg.m23, 0);
}

#[test]
fn propagation_is_idempotent() {
    let (mut g, helis) = make_scene_graph(3, 1, 60, 7, &heli_vaos());
    for h in &helis {
        h.update_heading(&mut g, 2 * ONE, ONE / 2);
        h.update_rotors(&mut g, 2 * ONE, ONE / 2);
    }
    assert!(update_node_transformations(&mut g, &Mat4::identity()));
    let first: Vec<Mat4> = g.nodes.iter().map(|n| n.current_transformation_matrix).collect();
    assert!(update_node_transformations(&mut g, &Mat4::identity()));
    for (i, n) in g.nodes.iter().enumerate() {
        assert_eq!(n.current_transformation_matrix, first[i]);
    }
}

#[test]
fn rotor_angles_are_phase_offset_by_id() {
    // offset 7.5 seconds, elapsed 2.0 seconds, in raw units
    let offset = 7 * ONE + ONE / 2;
    let time = 2 * ONE;
    let (mut g, helis) = make_scene_graph(2, 1, 60, 7, &heli_vaos());
    assert_eq!(helis[0].id, 0);
    assert_eq!(helis[1].id, 1);
    for h in &helis {
        h.update_rotors(&mut g, time, offset);
    }
    // instance 0: 2.0 * 10 = 20.0 rad; instance 1: (2.0 + 7.5) * 10 = 95.0 rad
    assert_eq!(g.nodes[helis[0].main_rotor].rotation.y, 20 * ONE);
    assert_eq!(g.nodes[helis[1].main_rotor].rotation.y, 95 * ONE);
    // tail rotors run at 15 rad per second
    assert_eq!(g.nodes[helis[0].tail_rotor].rotation.x, 30 * ONE);
    assert_eq!(g.nodes[helis[1].tail_rotor].rotation.x, 142 * ONE + ONE / 2);
}

#[test]
fn builder_wires_the_fixed_hierarchy() {
    let (g, helis) = make_scene_graph(2, 1, 60, 7, &heli_vaos());
    // root is structural with the terrain as its only child
    assert_eq!(g.nodes[0].vao_id, 0);
    assert_eq!(g.nodes[0].children, vec![1]);
    // the terrain's children are exactly the bodies, in id order
    let bodies: Vec<usize> = helis.iter().map(|h| h.body).collect();
    assert_eq!(g.nodes[1].children, bodies);
    for h in &helis {
        assert_eq!(g.nodes[h.body].parent, Some(1));
        // fresh nodes keep identity fields; the body pivots about its origin
        assert_eq!(g.nodes[h.body].reference_point, Vec3 { x: 0, y: 0, z: 0 });
        assert_eq!(g.nodes[h.body].position, Vec3 { x: 0, y: 0, z: 0 });
        assert_eq!(g.nodes[h.door].scale, Vec3 { x: ONE, y: ONE, z: ONE });
        // the hinge and hub pivots: (1.0, 1.5, 0.0), (0.0, 2.3, 0.0), (0.35, 2.3, 10.4)
        assert_eq!(g.nodes[h.door].reference_point, Vec3 { x: 65536, y: 98304, z: 0 });
        assert_eq!(g.nodes[h.main_rotor].reference_point, Vec3 { x: 0, y: 150733, z: 0 });
        assert_eq!(
            g.nodes[h.tail_rotor].reference_point,
            Vec3 { x: 22938, y: 150733, z: 681574 }
        );
    }
    // every node below the root carries the one shader program
    for n in g.nodes.iter().skip(1) {
        assert_eq!(n.shader_id, 7);
    }
}

#[test]
fn traversal_visits_every_drawable_exactly_once() {
    let (mut g, _helis) = make_scene_graph(3, 1, 60, 7, &heli_vaos());
    assert_eq!(g.nodes.len(), 14);
    assert!(update_node_transformations(&mut g, &Mat4::identity()));
    let calls = draw_scene(&g, 0, &Mat4::identity()).expect("draw list");
    // every node except the structural root owns a drawable
    assert_eq!(calls.len(), g.nodes.len() - 1);
}

#[test]
fn zero_reference_point_rotates_in_place() {
    let mut g = SceneGraph::new();
    let root = g.add_node(SceneNode::new());
    let mut n = SceneNode::new();
    n.position = Vec3 { x: 3 * ONE, y: 0, z: 0 };
    n.rotation = Vec3 { x: 0, y: PI_FX, z: 0 };
    let i = g.add_node(n);
    g.add_child(root, i);
    assert!(update_node_transformations(&mut g, &Mat4::identity()));
    let w = g.nodes[i].current_transformation_matrix;
    assert_eq!(w.m03, 3 * ONE);
    assert_eq!(w.m13, 0);
    assert_eq!(w.m23, 0);
}

#[test]
fn nonzero_reference_point_orbits() {
    // a half turn about y with the pivot one unit to the side moves the
    // node to the far side of the pivot: x becomes 2.0
    let mut g = SceneGraph::new();
    let root = g.add_node(SceneNode::new());
    let mut n = SceneNode::new();
    n.reference_point = Vec3 { x: ONE, y: 0, z: 0 };
    n.rotation = Vec3 { x: 0, y: PI_FX, z: 0 };
    let i = g.add_node(n);
    g.add_child(root, i);
    assert!(update_node_transformations(&mut g, &Mat4::identity()));
    let w = g.nodes[i].current_transformation_matrix;
    assert_eq!(w.m03, 2 * ONE);
    assert_eq!(w.m13, 0);
    assert_eq!(w.m23, 0);
}

#[test]
fn draw_calls_pair_world_and_view_times_world() {
    let (mut g, _helis) = make_scene_graph(1, 1, 60, 7, &heli_vaos());
    assert!(update_node_transformations(&mut g, &Mat4::identity()));
    let calls = draw_scene(&g, 0, &Mat4::identity()).expect("draw list");
    for c in &calls {
        // the view transform is the identity, so both matrices agree
        assert_eq!(c.total_transform, c.model_transform);
        assert!(c.vao_id > 0);
    }
}
