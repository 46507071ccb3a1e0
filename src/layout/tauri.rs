//! Where the desktop application's front end and shell live.
use vstd::prelude::*;

use crate::layout::components;
use crate::text::owned_strings;

verus! {

/// `ui`: the front end.
pub fn ui_dir() -> (r: Vec<String>)
    ensures
        components(r@) == seq!["ui"@],
{
    let r = owned_strings(&["ui"]);
    assert(components(r@) =~= seq!["ui"@]);
    r
}

/// `app`: the application shell.
pub fn tauri_dir() -> (r: Vec<String>)
    ensures
        components(r@) == seq!["app"@],
{
    let r = owned_strings(&["app"]);
    assert(components(r@) =~= seq!["app"@]);
    r
}

} // verus!
