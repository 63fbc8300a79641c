//! Finds duplicate media files between source directories and a destination
//! archive by comparing extracted metadata rather than byte content.
//!
//! The crate holds the matching core: the typed metadata model, the
//! near-equality size comparator, the mode-dependent match predicate over
//! pairs of records, and the planner that turns matches into pending actions
//! and a saved-space total.

pub mod extract;
pub mod format;
pub mod matching;
pub mod model;
pub mod planner;
pub mod scan;
pub mod text;
pub mod timefmt;
pub mod tolerance;
