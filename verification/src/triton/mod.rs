//! The Triton layer: spectral signatures of points in a five-dimensional
//! fixed-point space, a deterministic spiral walk through it, the
//! Solve/Coagula gate, TIC crystallization and the operators built on them.
pub mod operators_triton;
pub mod solve_coagula_gate;
pub mod spectral;
pub mod spiral;
pub mod tic_crystallize;
