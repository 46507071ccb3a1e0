//! The directory layout of the project tree that the build tooling works in.
//!
//! A location is given as its path components relative to the project root;
//! the caller joins them onto the root.
pub mod capture_sidecar;
pub mod ocr_sidecar;
pub mod tauri;

use vstd::prelude::*;

verus! {

/// The components of a relative path, as values.
pub open spec fn components(parts: Seq<String>) -> Seq<Seq<char>> {
    parts.map_values(|a: String| a@)
}

} // verus!
