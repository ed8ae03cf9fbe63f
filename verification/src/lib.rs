//! A verified scene-graph engine for a small 3D scene: a terrain root with
//! animated helicopter instances, a first-person camera, and procedural
//! shape and color generators.
//!
//! All geometry is carried in 16.16 fixed-point integers, so that every
//! transform computation is exact and checkable. The renderer in front of a
//! graphics API consumes the draw lists produced here.

pub mod fixed;
pub mod mat4;
pub mod scene_graph;
pub mod traversal;
pub mod render;
pub mod camera;
pub mod toolbox;
pub mod scene;
pub mod colors;
pub mod shapes;
pub mod tasks;
