//! Binding of a Python distribution's packaging operations to a build
//! configuration script: argument validation, lazy resolution of the
//! distribution, and the remarshalling of what the packaging tools report.

pub mod construct;
pub mod defaults;
pub mod distribution;
pub mod error;
pub mod executable;
pub mod location;
pub mod marshal;
pub mod operations;
pub mod pipeline;
pub mod policy;
pub mod resource;
pub mod text;
pub mod value;
