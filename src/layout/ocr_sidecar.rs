//! Where the OCR engine's sidecar and its Python environment live.
use vstd::prelude::*;

use crate::audio::Platform;
use crate::layout::components;
use crate::text::owned_strings;

verus! {

/// `sidecars/paddle-ocr`: the OCR engine's sidecar.
pub fn sidecar_dir() -> (r: Vec<String>)
    ensures
        components(r@) == seq!["sidecars"@, "paddle-ocr"@],
{
    let r = owned_strings(&["sidecars", "paddle-ocr"]);
    assert(components(r@) =~= seq!["sidecars"@, "paddle-ocr"@]);
    r
}

/// `app`: the desktop application that bundles the sidecars.
pub fn tauri_dir() -> (r: Vec<String>)
    ensures
        components(r@) == seq!["app"@],
{
    let r = owned_strings(&["app"]);
    assert(components(r@) =~= seq!["app"@]);
    r
}

/// The Python interpreter of the sidecar's virtual environment.
pub open spec fn venv_python_path(platform: Platform) -> Seq<Seq<char>> {
    if platform == Platform::Windows {
        seq!["sidecars"@, "paddle-ocr"@, "venv"@, "Scripts"@, "python.exe"@]
    } else {
        seq!["sidecars"@, "paddle-ocr"@, "venv"@, "bin"@, "python"@]
    }
}

pub fn venv_python(platform: Platform) -> (r: Vec<String>)
    ensures
        components(r@) == venv_python_path(platform),
{
    let r = if platform == Platform::Windows {
        owned_strings(&["sidecars", "paddle-ocr", "venv", "Scripts", "python.exe"])
    } else {
        owned_strings(&["sidecars", "paddle-ocr", "venv", "bin", "python"])
    };
    assert(components(r@) =~= venv_python_path(platform));
    r
}

} // verus!
