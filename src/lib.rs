//! Checks whether package names are free to publish on crates.io.

pub mod batch;
pub mod canon;
pub mod check;
pub mod index;
pub mod reserved;
pub mod text;
pub mod validation;
