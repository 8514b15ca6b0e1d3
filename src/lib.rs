//! Exact algebra of manifolds, Lie groups, affine spaces and charts over
//! integer coordinates, with frame-branded tangent vectors.

pub mod manifold;
pub mod affine;
pub mod algebra;
pub mod astrodynamics;
pub mod basis;
pub mod euclidean;
pub mod general;
pub mod kinematics;
pub mod lie;
pub mod matrix;
pub mod orthogonal;
pub mod plane;
pub mod space;
pub mod tangent;
