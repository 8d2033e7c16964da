//! Procedural voxel terrain: a deterministic block classifier, a chunk mesher
//! with face culling and atlas texturing, and the decisions of a chunk
//! streaming manager that keeps a square of chunks loaded around a viewer.

pub mod coords;
pub mod block;
pub mod terrain;
pub mod atlas;
pub mod mesh;
pub mod volume;
pub mod mesher;
pub mod streaming;
pub mod debug;
