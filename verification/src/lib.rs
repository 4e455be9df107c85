//! Extracts narrative text from a fixed shelf of EPUB novels, cleans and
//! segments it into overlapping three-line context windows, and produces one
//! output record per window for a downstream full-text search index.
//!
//! This crate holds the verified pipeline logic: line classification and
//! normalization, scene-border detection, chapter-title normalization, the
//! book catalog with its matcher, and the context-window assembler. Archive
//! reading, HTML rendering and JSON output live outside the library and hand
//! it plain strings.
#![verifier::loop_isolation(false)]

use vstd::prelude::*;

pub mod catalog;
pub mod chapter;
pub mod cleaner;
pub mod decorator;
pub mod laws;
pub mod markup;
pub mod text;
pub mod window;

verus! {

} // verus!
