//! A small voxel-scene library: a flat grid of textured cubes, an orbiting
//! camera driven by pointer drag and scroll input, and procedurally generated
//! palette textures. All geometry and camera state is held in fixed-point
//! milli-units (one unit of the scene = 1000 milli), so that every rule of the
//! scene — clamping, visibility, mesh layout, palette membership — is exact
//! integer arithmetic with a proved contract. The rendering host converts
//! these plain values to its own floating-point types at the edge.

pub mod camera;
pub mod color;
pub mod grid;
pub mod mesh;
pub mod scene;
pub mod space;
pub mod texture;
