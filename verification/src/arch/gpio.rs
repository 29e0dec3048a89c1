//! Stand-in GPIO types.
pub mod input;
pub mod output;
