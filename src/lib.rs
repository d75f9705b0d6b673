//! Bookkeeping for the immutable segments of a search index: what each
//! segment version holds, which files it owns, and which versions are live.
use vstd::prelude::*;

pub mod component;
pub mod segment_id;
pub mod segment_meta;
pub mod text;

verus! {

} // verus!
