//! Verified core of a song-export tool: it migrates audio assets referenced
//! by a rhythm game's local catalog into a flat destination directory,
//! deduplicating by underlying song identity, renaming files to a sanitized
//! display title, and planning the rewrite of the copied file's embedded
//! metadata.
//!
//! All filesystem access, catalog decoding and tag serialization happen
//! outside this crate; the library computes every decision (paths, dedup,
//! collision handling, counters) and proves it correct.

pub mod batch;
pub mod errors;
pub mod names;
pub mod plan;
pub mod record;
pub mod tags;
pub mod text;
pub mod transfer;
