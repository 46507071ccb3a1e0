//! Where the capture engine's sources and native build live.
use vstd::prelude::*;

use crate::layout::components;
use crate::text::owned_strings;

verus! {

/// `sidecars/qt-capture`: the capture engine's sidecar.
pub fn sidecar_dir() -> (r: Vec<String>)
    ensures
        components(r@) == seq!["sidecars"@, "qt-capture"@],
{
    let r = owned_strings(&["sidecars", "qt-capture"]);
    assert(components(r@) =~= seq!["sidecars"@, "qt-capture"@]);
    r
}

/// `sidecars/qt-capture/native`: the capture engine's native part.
pub fn qt_native_dir() -> (r: Vec<String>)
    ensures
        components(r@) == seq!["sidecars"@, "qt-capture"@, "native"@],
{
    let r = owned_strings(&["sidecars", "qt-capture", "native"]);
    assert(components(r@) =~= seq!["sidecars"@, "qt-capture"@, "native"@]);
    r
}

} // verus!
