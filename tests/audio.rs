use capture_supervisor::audio::{is_wayland, AudioGuard, AudioTool, Platform};

fn args(c: &capture_supervisor::audio::ControlCommand) -> Vec<&str> {
    c.args.iter().map(|a| a.as_str()).collect()
}

#[test]
fn test_mute_unmute_doesnt_panic() {
    let mut guard = AudioGuard::new(Platform::Linux, Some("wayland"));
    guard.mute();
    guard.unmute();
    assert!(!guard.is_muted());
}

#[test]
fn wayland_detection_ignores_ascii_case() {
    assert!(is_wayland(Some("wayland")));
    assert!(is_wayland(Some("Wayland")));
    assert!(is_wayland(Some("WAYLAND")));
    assert!(!is_wayland(Some("x11")));
    assert!(!is_wayland(Some("wayland ")));
    assert!(!is_wayland(Some("")));
    assert!(!is_wayland(None));
}

#[test]
fn macos_always_mutes_with_osascript() {
    let mut guard = AudioGuard::new(Platform::MacOs, None);
    assert!(guard.applies());
    assert_eq!(guard.pending_lookup(), None);
    let m = guard.mute().expect("a mute command");
    assert_eq!(m.program, "osascript");
    assert_eq!(args(&m), vec!["-e", "set volume with output muted"]);
    assert!(guard.is_muted());
    let u = guard.unmute().expect("an unmute command");
    assert_eq!(args(&u), vec!["-e", "set volume without output muted"]);
    assert!(!guard.is_muted());
}

#[test]
fn linux_x11_and_windows_need_no_command() {
    let mut x11 = AudioGuard::new(Platform::Linux, Some("x11"));
    assert!(!x11.applies());
    assert_eq!(x11.pending_lookup(), None);
    assert!(x11.mute().is_none());
    assert!(x11.is_muted());
    assert!(x11.unmute().is_none());
    assert!(!x11.is_muted());
    let mut win = AudioGuard::new(Platform::Windows, Some("wayland"));
    assert!(win.mute().is_none());
    assert!(win.unmute().is_none());
}

#[test]
fn wpctl_is_preferred_when_present() {
    let mut guard = AudioGuard::new(Platform::Linux, Some("wayland"));
    assert_eq!(guard.pending_lookup(), Some(AudioTool::Wpctl));
    guard.record_lookup(AudioTool::Wpctl, true);
    assert_eq!(guard.pending_lookup(), None);
    assert_eq!(guard.selected_tool(), AudioTool::Wpctl);
    let m = guard.mute().unwrap();
    assert_eq!(m.program, "wpctl");
    assert_eq!(args(&m), vec!["set-mute", "@DEFAULT_AUDIO_SINK@", "1"]);
    let u = guard.unmute().unwrap();
    assert_eq!(u.program, "wpctl");
    assert_eq!(args(&u), vec!["set-mute", "@DEFAULT_AUDIO_SINK@", "0"]);
}

#[test]
fn pactl_is_the_fallback() {
    let mut guard = AudioGuard::new(Platform::Linux, Some("wayland"));
    guard.record_lookup(AudioTool::Wpctl, false);
    assert_eq!(guard.pending_lookup(), Some(AudioTool::Pactl));
    guard.record_lookup(AudioTool::Pactl, true);
    assert_eq!(guard.pending_lookup(), None);
    let m = guard.mute().unwrap();
    assert_eq!(m.program, "pactl");
    assert_eq!(args(&m), vec!["set-sink-mute", "@DEFAULT_SINK@", "1"]);
    let u = guard.unmute().unwrap();
    assert_eq!(args(&u), vec!["set-sink-mute", "@DEFAULT_SINK@", "0"]);
}

#[test]
fn no_utility_present_falls_back_to_amixer_without_error() {
    let mut guard = AudioGuard::new(Platform::Linux, Some("wayland"));
    guard.record_lookup(AudioTool::Wpctl, false);
    guard.record_lookup(AudioTool::Pactl, false);
    let m = guard.mute().unwrap();
    assert_eq!(m.program, "amixer");
    assert_eq!(args(&m), vec!["-q", "sset", "Master", "mute"]);
    let u = guard.unmute().unwrap();
    assert_eq!(u.program, "amixer");
    assert_eq!(args(&u), vec!["-q", "sset", "Master", "unmute"]);
    assert!(!guard.is_muted());
}

#[test]
fn first_lookup_answer_is_kept() {
    let mut guard = AudioGuard::new(Platform::Linux, Some("wayland"));
    guard.record_lookup(AudioTool::Wpctl, true);
    guard.record_lookup(AudioTool::Wpctl, false);
    assert_eq!(guard.selected_tool(), AudioTool::Wpctl);
}
