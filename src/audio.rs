//! Suppression of the shutter sound that some platforms play on capture.
//!
//! The guard decides whether audio must be muted on this platform, which
//! control utility to use and with what arguments, and keeps the logical
//! muted state; running the command is the caller's, and a failure to run it
//! is never an error of the session.
use vstd::prelude::*;

use crate::text::{eq_ignore_ascii_case, equal_ignoring_ascii_case, owned_strings};

verus! {

/// The operating system the supervisor runs on.
#[derive(Clone, Copy, PartialEq, Eq, Structural, Debug)]
pub enum Platform {
    Linux,
    MacOs,
    Windows,
    Other,
}

/// A utility that can mute and unmute the default audio output.
#[derive(Clone, Copy, PartialEq, Eq, Structural, Debug)]
pub enum AudioTool {
    /// PipeWire's control utility, tried first.
    Wpctl,
    /// PulseAudio's control utility.
    Pactl,
    /// ALSA's mixer, the last resort.
    Amixer,
    /// The scripting host that sets the system volume on macOS.
    Osascript,
}

/// A program and its arguments.
pub struct ControlCommand {
    pub program: String,
    pub args: Vec<String>,
}

/// A command, as values.
pub struct CommandView {
    pub program: Seq<char>,
    pub args: Seq<Seq<char>>,
}

impl View for ControlCommand {
    type V = CommandView;

    open spec fn view(&self) -> CommandView {
        CommandView { program: self.program@, args: self.args@.map_values(|a: String| a@) }
    }
}

pub open spec fn command_view(program: &str, args: Seq<&str>) -> CommandView {
    CommandView { program: program@, args: args.map_values(|a: &str| a@) }
}

/// The command that mutes (`mute`) or unmutes (`!mute`) audio with `tool`.
pub open spec fn tool_command(tool: AudioTool, mute: bool) -> CommandView {
    match tool {
        AudioTool::Wpctl => command_view(
            "wpctl",
            seq!["set-mute", "@DEFAULT_AUDIO_SINK@", if mute { "1" } else { "0" }],
        ),
        AudioTool::Pactl => command_view(
            "pactl",
            seq!["set-sink-mute", "@DEFAULT_SINK@", if mute { "1" } else { "0" }],
        ),
        AudioTool::Amixer => command_view(
            "amixer",
            seq!["-q", "sset", "Master", if mute { "mute" } else { "unmute" }],
        ),
        AudioTool::Osascript => command_view(
            "osascript",
            seq![
                "-e",
                if mute {
                    "set volume with output muted"
                } else {
                    "set volume without output muted"
                },
            ],
        ),
    }
}

/// The guard's state, as values.
pub struct AudioView {
    pub platform: Platform,
    /// The session runs under Wayland.
    pub wayland: bool,
    /// Whether `wpctl` is present, once looked up.
    pub has_wpctl: Option<bool>,
    /// Whether `pactl` is present, once looked up.
    pub has_pactl: Option<bool>,
    /// The logical state: audio was muted and not unmuted since.
    pub muted: bool,
}

/// The session type names the Wayland protocol, in any ASCII case.
pub open spec fn is_wayland_session(session_type: Option<Seq<char>>) -> bool {
    match session_type {
        Some(t) => equal_ignoring_ascii_case(t, "wayland"@),
        None => false,
    }
}

/// Muting is needed: macOS always sounds on capture, Linux only under Wayland,
/// other platforms are silent.
pub open spec fn suppression_applies(v: AudioView) -> bool {
    v.platform == Platform::MacOs || (v.platform == Platform::Linux && v.wayland)
}

/// The utility used, by priority among those known to be present; one not yet
/// looked up counts as absent.
pub open spec fn selected_tool(v: AudioView) -> AudioTool {
    if v.platform == Platform::MacOs {
        AudioTool::Osascript
    } else if v.has_wpctl == Some(true) {
        AudioTool::Wpctl
    } else if v.has_pactl == Some(true) {
        AudioTool::Pactl
    } else {
        AudioTool::Amixer
    }
}

/// The utility whose presence must be looked up before the selection is final.
pub open spec fn pending_lookup(v: AudioView) -> Option<AudioTool> {
    if !suppression_applies(v) || v.platform != Platform::Linux {
        None
    } else if v.has_wpctl is None {
        Some(AudioTool::Wpctl)
    } else if v.has_wpctl == Some(false) && v.has_pactl is None {
        Some(AudioTool::Pactl)
    } else {
        None
    }
}

/// The command run to mute (`mute`) or unmute (`!mute`), if any.
pub open spec fn guard_command(v: AudioView, mute: bool) -> Option<CommandView> {
    if suppression_applies(v) {
        Some(tool_command(selected_tool(v), mute))
    } else {
        None
    }
}

pub open spec fn option_command_view(c: Option<ControlCommand>) -> Option<CommandView> {
    match c {
        Some(c) => Some(c@),
        None => None,
    }
}

/// Mutes audio around a capture on the platforms that need it.
pub struct AudioGuard {
    platform: Platform,
    wayland: bool,
    has_wpctl: Option<bool>,
    has_pactl: Option<bool>,
    muted: bool,
}

impl View for AudioGuard {
    type V = AudioView;

    closed spec fn view(&self) -> AudioView {
        AudioView {
            platform: self.platform,
            wayland: self.wayland,
            has_wpctl: self.has_wpctl,
            has_pactl: self.has_pactl,
            muted: self.muted,
        }
    }
}

/// Builds a command from a program name and its arguments.
pub fn command(program: &str, args: &[&str]) -> (r: ControlCommand)
    ensures
        r@ == command_view(program, args@),
{
    ControlCommand { program: String::from_str(program), args: owned_strings(args) }
}

fn tool_command_exec(tool: AudioTool, mute: bool) -> (r: ControlCommand)
    ensures
        r@ == tool_command(tool, mute),
{
    match tool {
        AudioTool::Wpctl => {
            let state = if mute {
                "1"
            } else {
                "0"
            };
            command("wpctl", &["set-mute", "@DEFAULT_AUDIO_SINK@", state])
        },
        AudioTool::Pactl => {
            let state = if mute {
                "1"
            } else {
                "0"
            };
            command("pactl", &["set-sink-mute", "@DEFAULT_SINK@", state])
        },
        AudioTool::Amixer => {
            let state = if mute {
                "mute"
            } else {
                "unmute"
            };
            command("amixer", &["-q", "sset", "Master", state])
        },
        AudioTool::Osascript => {
            let script = if mute {
                "set volume with output muted"
            } else {
                "set volume without output muted"
            };
            command("osascript", &["-e", script])
        },
    }
}

/// Whether `session_type` (the value of `XDG_SESSION_TYPE`, if set) names Wayland.
pub fn is_wayland(session_type: Option<&str>) -> (r: bool)
    ensures
        r == is_wayland_session(
            match session_type {
                Some(t) => Some(t@),
                None => None,
            },
        ),
{
    match session_type {
        Some(t) => eq_ignore_ascii_case(t, "wayland"),
        None => false,
    }
}

impl AudioGuard {
    /// A guard for `platform`, in a session whose type is `session_type`;
    /// audio counts as not muted and no utility has been looked up.
    pub fn new(platform: Platform, session_type: Option<&str>) -> (r: AudioGuard)
        ensures
            r@ == (AudioView {
                platform,
                wayland: is_wayland_session(
                    match session_type {
                        Some(t) => Some(t@),
                        None => None,
                    },
                ),
                has_wpctl: None,
                has_pactl: None,
                muted: false,
            }),
    {
        AudioGuard {
            platform,
            wayland: is_wayland(session_type),
            has_wpctl: None,
            has_pactl: None,
            muted: false,
        }
    }

    /// Whether audio counts as muted.
    pub fn is_muted(&self) -> (r: bool)
        ensures
            r == self@.muted,
    {
        self.muted
    }

    /// The utility whose presence the caller looks up next, if the choice of
    /// utility still depends on one.
    pub fn pending_lookup(&self) -> (r: Option<AudioTool>)
        ensures
            r == pending_lookup(self@),
    {
        if !self.applies() || self.platform != Platform::Linux {
            None
        } else if self.has_wpctl.is_none() {
            Some(AudioTool::Wpctl)
        } else if self.has_wpctl == Some(false) && self.has_pactl.is_none() {
            Some(AudioTool::Pactl)
        } else {
            None
        }
    }

    /// Records whether `tool` is present. The first answer for a utility is
    /// kept: a later one changes nothing.
    pub fn record_lookup(&mut self, tool: AudioTool, present: bool)
        ensures
            final(self)@ == (match tool {
                AudioTool::Wpctl => if old(self)@.has_wpctl is None {
                    AudioView { has_wpctl: Some(present), ..old(self)@ }
                } else {
                    old(self)@
                },
                AudioTool::Pactl => if old(self)@.has_pactl is None {
                    AudioView { has_pactl: Some(present), ..old(self)@ }
                } else {
                    old(self)@
                },
                _ => old(self)@,
            }),
    {
        match tool {
            AudioTool::Wpctl => {
                if self.has_wpctl.is_none() {
                    self.has_wpctl = Some(present);
                }
            },
            AudioTool::Pactl => {
                if self.has_pactl.is_none() {
                    self.has_pactl = Some(present);
                }
            },
            _ => {},
        }
    }

    /// Whether this platform and session need the shutter sound suppressed.
    pub fn applies(&self) -> (r: bool)
        ensures
            r == suppression_applies(self@),
    {
        self.platform == Platform::MacOs || (self.platform == Platform::Linux && self.wayland)
    }

    /// The utility that mute and unmute use.
    pub fn selected_tool(&self) -> (r: AudioTool)
        ensures
            r == selected_tool(self@),
    {
        if self.platform == Platform::MacOs {
            AudioTool::Osascript
        } else if self.has_wpctl == Some(true) {
            AudioTool::Wpctl
        } else if self.has_pactl == Some(true) {
            AudioTool::Pactl
        } else {
            AudioTool::Amixer
        }
    }

    /// Marks audio muted and returns the command that mutes it, or `None`
    /// where this platform needs none.
    pub fn mute(&mut self) -> (r: Option<ControlCommand>)
        ensures
            final(self)@ == (AudioView { muted: true, ..old(self)@ }),
            option_command_view(r) == guard_command(old(self)@, true),
    {
        self.muted = true;
        if self.applies() {
            Some(tool_command_exec(self.selected_tool(), true))
        } else {
            None
        }
    }

    /// Marks audio unmuted and returns the command that unmutes it, or `None`
    /// where this platform needs none.
    pub fn unmute(&mut self) -> (r: Option<ControlCommand>)
        ensures
            final(self)@ == (AudioView { muted: false, ..old(self)@ }),
            option_command_view(r) == guard_command(old(self)@, false),
    {
        self.muted = false;
        if self.applies() {
            Some(tool_command_exec(self.selected_tool(), false))
        } else {
            None
        }
    }
}

/// Muting and then unmuting leaves audio logically unmuted, and the two
/// commands, where there are any, use the same utility; no utility being
/// present changes neither, the last resort being used for both.
pub proof fn lemma_mute_then_unmute(v: AudioView)
    ensures
        ({
            let m = AudioView { muted: true, ..v };
            let u = AudioView { muted: false, ..m };
            &&& !u.muted
            &&& selected_tool(m) == selected_tool(v)
            &&& guard_command(v, true) is Some <==> guard_command(m, false) is Some
            &&& suppression_applies(v) ==> guard_command(v, true) == Some(
                tool_command(selected_tool(v), true),
            ) && guard_command(m, false) == Some(tool_command(selected_tool(v), false))
            &&& (v.platform == Platform::Linux && v.has_wpctl != Some(true) && v.has_pactl != Some(
                true,
            )) ==> selected_tool(v) == AudioTool::Amixer
        }),
{
}

} // verus!
