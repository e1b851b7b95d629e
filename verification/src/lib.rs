//! Configuration of a pool of Redis connections: an optional server URL and
//! optional pool settings, each with a default, and the step that turns a
//! configuration into the parts a pool is assembled from.

pub mod bindings;
pub mod config;

pub use crate::config::{Config, PoolParts, DEFAULT_URL};
