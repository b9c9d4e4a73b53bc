//! Monitor arrangement engine: output geometry, placement and collision
//! rules, the panel state machine, workspace assignment, and the
//! compositor configuration text it writes and reads.

// Text and numbers.
pub mod chars;
pub mod text;

// Outputs and their arrangement.
pub mod geometry;
pub mod placement;
pub mod assign;
pub mod app;

// Compositor configuration files.
pub mod compositor;
pub mod config;
pub mod format;
pub mod workspace;
pub mod saved;
pub mod extract;
pub mod monitor;
