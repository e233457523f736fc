//! Frontends that turn inputs into UIR graphs.
pub mod generic_text;
pub mod json_uir;
pub mod python_ts;
