//! A small real-time rendering core: descriptor-keyed resource caching and
//! camera/transform mathematics over fixed-point scalars, verified with Verus.
//!
//! Geometry and matrices use signed 16.16 fixed-point values (see [`fx`]):
//! the engine's numeric convention is a left-handed, infinite-far perspective
//! projection, applied consistently by [`camera`].

pub mod cache;
pub mod camera;
pub mod draw;
pub mod fx;
pub mod input;
pub mod mat;
pub mod mesh;
pub mod render;
pub mod resource_manager;
pub mod resources;
pub mod shader;
pub mod store;
pub mod systems;
pub mod texture;
pub mod time;
pub mod transform;
