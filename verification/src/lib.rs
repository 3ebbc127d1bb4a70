//! A validation engine for structured game-data plugin files.
//!
//! The library walks an already-parsed, ordered collection of records and
//! reports data-quality defects: out-of-bounds placements, broken
//! cross-references, disconnected navigation graphs, policy violations and
//! stray developer comments.

pub mod context;
pub mod findings;
pub mod handlers;
pub mod laws;
pub mod model;
pub mod tables;
pub mod text;
pub mod util;
pub mod validators;

