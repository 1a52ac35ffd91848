//! T-spline surfaces over an analysis-suitable T-mesh.
//!
//! - [`mesh`]: the half-edge store (control points, half-edges, faces linked
//!   by integer handles), its well-formedness, face walks and spoke search.
//! - [`knots`]: local knot inference by casting four rays from each control
//!   point, with the face-intersection fallback at T-junctions.
//! - [`basis`] and [`eval`]: the cubic B-spline basis, the rational
//!   tensor-product evaluator and the grid tessellator.
//! - [`segment`] and [`asts`]: the segment intersection test and the
//!   analysis-suitability check of T-junction extensions.
//! - [`tspline`]: the wrapper that owns a mesh and applies commands to it;
//!   [`shapes`] builds the seed meshes.
//! - [`export`] and [`text`]: OBJ and PLY text.
//! - [`scalar`]: the saturating fixed-point number all geometry uses;
//!   [`orbit`] and [`laws`] hold the proofs about walks and knots.
pub mod asts;
pub mod basis;
pub mod bounds;
pub mod eval;
pub mod export;
pub mod knots;
pub mod laws;
pub mod mesh;
pub mod orbit;
pub mod scalar;
pub mod segment;
pub mod shapes;
pub mod text;
pub mod tspline;

pub use crate::mesh::{Point3, Vector4};
pub use crate::scalar::{Numeric, Scalar};
pub use crate::tspline::{Command, CommandMut, TSpline};
