//! Style values and style-command decisions for UI nodes.
//!
//! The library keeps the parts of node styling that decide something: which
//! value a style shows in each interaction state, which style attributes are
//! locked against change, how a style builder keeps one entry per logical
//! attribute, and what each style command writes to a node.
pub mod interaction;
pub mod vals;
pub mod lock;
pub mod builder;
pub mod commands;
