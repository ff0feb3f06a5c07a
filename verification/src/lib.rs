//! Scaffolds a new Swim application: validates a project name, renders a
//! bundled template catalog with caller-supplied parameters, and plans the
//! directory tree and files that a driver materializes on disk.

pub mod catalog;
pub mod error;
pub mod ident;
pub mod orchestrator;
pub mod paths;
pub mod plan;
pub mod render;
