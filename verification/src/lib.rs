//! A scaffolding library: it interprets a YAML description of a directory
//! layout as an ordered list of filesystem actions (directories to create,
//! files to write), with a special template for multi-crate workspace
//! skeletons. The interpretation is pure: callers execute the resulting
//! actions against a real filesystem.

pub mod config;
pub mod content;
pub mod laws;
pub mod builder;
pub mod plan;
