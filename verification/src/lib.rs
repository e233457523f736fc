//! Deterministic execution kernel with canonical JSON digests, replay checks,
//! a model pack (UIR graphs, hypercube moves, HDAG ranking, TriMoebius time)
//! and the Triton operator layer.
use vstd::prelude::*;

pub mod engine;
pub mod errors;
pub mod model;
pub mod evidence;
pub mod json;
pub mod manifest;
pub mod operator_registry;
pub mod operators;
pub mod order;
pub mod pipeline;
pub mod program;
pub mod rd;
pub mod state;
pub mod replay;
pub mod audit;
pub mod canon_jcs;
pub mod digest;
pub mod text;
pub mod tie_break;
pub mod trace;
pub mod triton;
pub mod types;
pub mod uir;
pub mod unicode_data;
pub mod normalize;

verus! {

} // verus!
