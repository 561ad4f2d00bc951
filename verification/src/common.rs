//! Shared domain primitives.

pub mod id;

pub use id::Id;
