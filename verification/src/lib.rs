//! A note store kept as markdown files under one root directory.
//!
//! The library decides; its surroundings read the disk and the clock, ask
//! the user and start the editor, and hand what they found back as plain
//! values.

pub mod config;
pub mod date;
pub mod dirs;
pub mod error;
pub mod index;
pub mod laws;
pub mod notes;
pub mod paths;
pub mod plan;
pub mod text;
pub mod walk;
