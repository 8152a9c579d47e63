//! What a builder draws on while it builds.

pub mod context;
