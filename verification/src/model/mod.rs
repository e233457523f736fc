//! The model pack: frontends, hypercube moves, HDAG ranking, TriMoebius
//! time, blocks, observers and the engines built from them.
pub mod block;
pub mod cube;
pub mod frontends;
pub mod hdag;
pub mod observer_r5;
pub mod pack;
pub mod projection_pi;
pub mod time_trimoebius;

use vstd::prelude::*;

use crate::errors::{error_text, CoreError};
use crate::text::{push_str, string_of};

verus! {

/// Errors of the frontends: a JSON decoding failure (its message), a kernel
/// error, or a message of the frontend's own.
#[derive(Debug)]
pub enum FrontendError {
    Json(String),
    Core(CoreError),
    Message(String),
}

/// The text that describes a frontend error.
pub open spec fn frontend_error_text(e: FrontendError) -> Seq<char> {
    match e {
        FrontendError::Json(m) => "json error: "@ + m@,
        FrontendError::Core(c) => "core error: "@ + error_text(c),
        FrontendError::Message(m) => m@,
    }
}

impl FrontendError {
    /// The text that describes the error.
    pub fn message(&self) -> (r: String)
        ensures
            r@ == frontend_error_text(*self),
    {
        match self {
            FrontendError::Json(m) => {
                let mut out = string_of("json error: ");
                push_str(&mut out, m.as_str());
                out
            },
            FrontendError::Core(c) => {
                let mut out = string_of("core error: ");
                let t = c.message();
                push_str(&mut out, t.as_str());
                out
            },
            FrontendError::Message(m) => string_of(m.as_str()),
        }
    }
}

} // verus!
