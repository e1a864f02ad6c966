//! Per-connection collaborators: the factory and what it produces.

pub mod factory;
pub mod handler;
