//! Locating, launching and stopping the capture process.
use vstd::prelude::*;

use crate::audio::{command, command_view, CommandView, ControlCommand, Platform};
use crate::text::{decimal, decimal_string, owned_strings};

verus! {

/// The directory, beside the supervisor's executable, that holds the capture
/// binary and its bundled runtime.
pub const RUNTIME_DIR_NAME: &'static str = "qt-runtime";

/// The subdirectory of the runtime directory that holds the bundled libraries.
pub const LIBS_DIR_NAME: &'static str = "libs";

/// The subdirectory of the runtime directory that holds the bundled plugins.
pub const PLUGINS_DIR_NAME: &'static str = "plugins";

/// The subdirectory of the plugin directory that holds the platform plugins.
pub const PLATFORMS_DIR_NAME: &'static str = "platforms";

/// Where the capture binary may be, relative to the runtime directory, in the
/// order in which they are tried.
pub open spec fn candidate_paths(platform: Platform) -> Seq<Seq<char>> {
    match platform {
        Platform::MacOs => seq!["capture.app/Contents/MacOS/capture"@],
        Platform::Linux => seq!["capture"@, "bin/capture-bin"@],
        Platform::Windows => seq!["capture.exe"@],
        Platform::Other => seq![],
    }
}

/// The candidate paths of the capture binary on `platform`: on Linux a
/// wrapper script that sets up the environment comes before the binary itself.
pub fn binary_candidates(platform: Platform) -> (r: Vec<String>)
    ensures
        r@.map_values(|a: String| a@) == candidate_paths(platform),
{
    let r = match platform {
        Platform::MacOs => owned_strings(&["capture.app/Contents/MacOS/capture"]),
        Platform::Linux => owned_strings(&["capture", "bin/capture-bin"]),
        Platform::Windows => owned_strings(&["capture.exe"]),
        Platform::Other => Vec::new(),
    };
    assert(r@.map_values(|a: String| a@) =~= candidate_paths(platform));
    r
}

/// The first index whose entry is true, if any: the candidate that is used.
pub fn first_present(present: &Vec<bool>) -> (r: Option<usize>)
    ensures
        match r {
            Some(i) => i < present@.len() && present@[i as int] && forall|j: int|
                0 <= j < i ==> !present@[j],
            None => forall|j: int| 0 <= j < present@.len() ==> !present@[j],
        },
{
    let mut i: usize = 0;
    while i < present.len()
        invariant
            i <= present@.len(),
            forall|j: int| 0 <= j < i ==> !present@[j],
        decreases present@.len() - i,
    {
        if present[i] {
            return Some(i);
        }
        i = i + 1;
    }
    None
}

/// The library search path for the child: the bundled library directory,
/// ahead of the search path inherited from the environment, if any.
pub open spec fn joined_search_path(libs: Seq<char>, inherited: Option<Seq<char>>) -> Seq<char> {
    match inherited {
        Some(e) => libs + ":"@ + e,
        None => libs,
    }
}

pub fn library_search_path(libs: &str, inherited: Option<&str>) -> (r: String)
    ensures
        r@ == joined_search_path(
            libs@,
            match inherited {
                Some(e) => Some(e@),
                None => None,
            },
        ),
{
    match inherited {
        Some(e) => String::from_str(libs).concat(":").concat(e),
        None => String::from_str(libs),
    }
}

/// The command that forcibly ends process `pid`.
pub open spec fn kill_command_view(platform: Platform, pid: u32) -> CommandView {
    match platform {
        Platform::Windows => CommandView {
            program: "taskkill"@,
            args: seq!["/F"@, "/PID"@, decimal(pid as nat)],
        },
        _ => CommandView { program: "kill"@, args: seq!["-9"@, decimal(pid as nat)] },
    }
}

pub fn kill_command(platform: Platform, pid: u32) -> (r: ControlCommand)
    ensures
        r@ == kill_command_view(platform, pid),
{
    let id = decimal_string(pid);
    let r = match platform {
        Platform::Windows => {
            let args = ["/F", "/PID", id.as_str()];
            let r = command("taskkill", &args);
            assert(r@.args =~= seq!["/F"@, "/PID"@, id@]);
            r
        },
        _ => {
            let args = ["-9", id.as_str()];
            let r = command("kill", &args);
            assert(r@.args =~= seq!["-9"@, id@]);
            r
        },
    };
    r
}

} // verus!
