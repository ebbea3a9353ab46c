//! Inspection and smoke-testing of LV2 plugins: what is read from a plugin's
//! description, how it is reported, and how a single run is planned.
pub mod text;
pub mod node;
pub mod extras;
pub mod error;
pub mod model;
pub mod extract;
pub mod summaries;
pub mod run;
pub mod laws;
