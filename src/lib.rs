//! Finds `.DS_Store` files under a directory and moves them to the trash,
//! with the decisions of each run proved: which entries are targets, which
//! files may be removed, and what the counters report.

pub mod cleaner;
pub mod config;
pub mod laws;
pub mod removal;
pub mod stats;
pub mod target;
