//! Geometry-to-render bridge for NURBS scenes.
//!
//! Two stateless components work on data produced elsewhere:
//!
//! * a mesh buffer builder, which turns a surface tessellation
//!   (points, normals, UV coordinates, triangle or quad faces) into flat
//!   vertex/index buffers for rasterization, plus an optional
//!   normal-visualization line list; and
//! * a closest-curve resolver, which picks, among candidate curves probed
//!   by a ray, the one whose curve lies nearest to the per-candidate plane
//!   intersection, under a strict distance threshold.
//!
//! Scalars cross this library as IEEE-754 bit patterns (`u32` for the
//! single-precision render buffers, `u64` for double-precision distances),
//! so every structural guarantee — buffer lengths, the dimension projection
//! rule, quad fan order, the NaN-tolerant minimum search, the strict
//! threshold — is stated and machine-checked here, while the host performs
//! its native floating-point arithmetic at the boundary.

pub mod mesh;
pub mod resolver;
pub mod scalar;
