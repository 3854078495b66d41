//! Binding resolution and script-setup analysis for single-file components.

pub mod ast;
pub mod imports;
pub mod scope;
pub mod setup;
pub mod error;
