//! Decoder for Quake-II-style "IBSP" level containers.
//!
//! The library parses the fixed header and 19-entry lump directory, decodes
//! the lumps needed for rendering (vertices, edges, face-edges, faces,
//! planes, texture info), computes an axis-aligned bounding box, and
//! reconstructs a flat fan-triangulated mesh. Every 32-bit float of the
//! file is carried as its raw bit pattern (`u32`); the few genuinely
//! numeric steps (triangle winding sign, UV projection) are delegated to
//! the caller through [`decode::BSP38::read_faces`]'s inputs.

pub mod bounds;
pub mod bytes;
pub mod decode;
pub mod fbits;
pub mod geometry;
pub mod laws;
pub mod texinfo;

pub use bounds::Bounds;
pub use decode::BSP38;
pub use decode::BSP38Lump;
pub use decode::BspError;
pub use geometry::FaceData;
pub use geometry::Pt;
pub use geometry::Triangle;
pub use texinfo::TextureInfo;
pub use fbits::F32_NEG_INF;
pub use fbits::F32_POS_INF;
