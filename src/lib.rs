//! Personal tool installer: adaptive configuration resolution, resource
//! acquisition decisions and the idempotent install pipeline.

pub mod shells;
pub mod text;
pub mod config;
pub mod resolver;
pub mod pattern;
pub mod github;
pub mod paths;
pub mod shim;
pub mod hooks;
pub mod acquire;
pub mod pipeline;
pub mod listing;
