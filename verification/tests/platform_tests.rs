use aether_desk::error::AppError;
use aether_desk::platform::{
    chain_first_success, create_wallpaper_manager, detect_desktop_environment,
    helper_tool_result, is_hyprland, parse_monitor_lines, single_command_result,
    CommandOutcome, HyprlandWallpaperManager, LinuxWallpaperManager, OsKind, PlatformManager,
    WindowsWallpaperManager,
};

fn outcome(spawned: bool, exit_ok: bool, stderr: &str) -> CommandOutcome {
    CommandOutcome {
        spawned,
        exit_ok,
        stdout: String::new(),
        stderr: stderr.to_string(),
    }
}

fn args(cmd: &aether_desk::platform::ToolCommand) -> Vec<&str> {
    cmd.args.iter().map(|s| s.as_str()).collect()
}

#[test]
fn test_linux_static_chain_order_pinned() {
    let m = LinuxWallpaperManager::new("GNOME".to_string());
    let chain = m.static_wallpaper_commands("/tmp/w.png");
    assert_eq!(chain.len(), 3);
    assert_eq!(chain[0].program, "gsettings");
    assert_eq!(
        args(&chain[0]),
        vec![
            "set",
            "org.gnome.desktop.background",
            "picture-uri",
            "file:///tmp/w.png"
        ]
    );
    assert_eq!(chain[1].program, "feh");
    assert_eq!(args(&chain[1]), vec!["--bg-fill", "/tmp/w.png"]);
    assert_eq!(chain[2].program, "nitrogen");
    assert_eq!(args(&chain[2]), vec!["--set-zoom-fill", "/tmp/w.png"]);
}

#[test]
fn test_linux_clear_chain_order_pinned() {
    let m = LinuxWallpaperManager::new("generic".to_string());
    let chain = m.clear_wallpaper_commands();
    assert_eq!(chain.len(), 3);
    assert_eq!(chain[0].program, "gsettings");
    assert_eq!(
        args(&chain[0]),
        vec!["set", "org.gnome.desktop.background", "picture-uri", ""]
    );
    assert_eq!(chain[1].program, "feh");
    assert_eq!(args(&chain[1]), vec!["--bg-fill", "--no-fehbg"]);
    assert_eq!(chain[2].program, "nitrogen");
    assert_eq!(args(&chain[2]), vec!["--restore"]);
}

#[test]
fn test_linux_single_commands() {
    let m = LinuxWallpaperManager::new("KDE".to_string());
    let v = m.video_wallpaper_command("v.mp4");
    assert_eq!(v.program, "vlc");
    assert_eq!(args(&v), vec!["--video-wallpaper", "--no-audio", "--loop", "v.mp4"]);
    let w = m.web_wallpaper_command("https://example.org");
    assert_eq!(w.program, "firefox");
    assert_eq!(args(&w), vec!["--new-window", "https://example.org"]);
    let s = m.shader_wallpaper_command("s.glsl");
    assert_eq!(s.program, "shadertoy");
    assert_eq!(args(&s), vec!["s.glsl"]);
    let a = m.audio_wallpaper_command("a.glsl");
    assert_eq!(a.program, "shadertoy");
    assert_eq!(args(&a), vec!["--audio", "a.glsl"]);
}

#[test]
fn test_linux_helper_builders() {
    let m = LinuxWallpaperManager::new("XFCE".to_string());
    assert_eq!(args(&m.set_wallpaper_with_feh("p.png")), vec!["--bg-fill", "p.png"]);
    assert_eq!(
        args(&m.set_wallpaper_with_gsettings("p.png")),
        vec!["set", "org.gnome.desktop.background", "picture-uri", "file://p.png"]
    );
    assert_eq!(
        args(&m.set_wallpaper_with_xfconf("p.png")),
        vec![
            "-c",
            "xfce4-desktop",
            "-p",
            "/backdrop/screen0/monitor0/image-path",
            "-s",
            "p.png"
        ]
    );
    assert_eq!(args(&m.set_wallpaper_with_swww("p.png")), vec!["img", "p.png"]);
}

#[test]
fn test_chain_first_success_picks_first_zero_exit() {
    let outcomes = vec![
        outcome(true, false, "tool one failed"),
        outcome(false, false, "tool two missing"),
        outcome(true, true, ""),
        outcome(true, true, ""),
    ];
    assert_eq!(chain_first_success(&outcomes), Some(2));
    let all_bad = vec![outcome(true, false, "x"), outcome(false, false, "y")];
    assert_eq!(chain_first_success(&all_bad), None);
    assert_eq!(chain_first_success(&Vec::new()), None);
}

#[test]
fn test_linux_static_result_updates_current() {
    let mut m = LinuxWallpaperManager::new("GNOME".to_string());
    assert!(m.get_current_wallpaper().is_none());

    // Every tool failed: the chain is exhausted, nothing changes, and the
    // error carries the last tool's diagnostic.
    let r = m.set_static_result(
        "w.png",
        &vec![outcome(false, false, "no gsettings"), outcome(true, false, "boom")],
    );
    assert_eq!(r, Err(AppError::PlatformError("boom".to_string())));
    assert!(m.get_current_wallpaper().is_none());

    // The second tool succeeded: the path becomes current.
    let r = m.set_static_result(
        "w.png",
        &vec![outcome(true, false, "boom"), outcome(true, true, "")],
    );
    assert!(r.is_ok());
    assert_eq!(m.get_current_wallpaper().as_deref(), Some("w.png"));

    // An exhausted clear chain reports the last diagnostic and keeps the
    // current path; a successful clear empties the slot.
    let r = m.clear_result(&vec![outcome(true, false, "cannot clear")]);
    assert_eq!(r, Err(AppError::PlatformError("cannot clear".to_string())));
    assert_eq!(m.get_current_wallpaper().as_deref(), Some("w.png"));
    assert!(m.clear_result(&vec![outcome(true, true, "")]).is_ok());
    assert!(m.get_current_wallpaper().is_none());
}

#[test]
fn test_single_and_helper_command_results() {
    assert!(single_command_result(&outcome(true, true, "")).is_ok());
    assert_eq!(
        single_command_result(&outcome(false, false, "no such file")),
        Err(AppError::IoError("no such file".to_string()))
    );
    assert_eq!(
        single_command_result(&outcome(true, false, "bad flag")),
        Err(AppError::WallpaperError("bad flag".to_string()))
    );
    assert_eq!(
        helper_tool_result("feh", &outcome(true, false, "no display")),
        Err(AppError::PlatformError("feh failed: no display".to_string()))
    );
}

#[test]
fn test_detect_desktop_environment_precedence() {
    assert_eq!(
        detect_desktop_environment(Some("Hyprland".to_string()), Some("kde".to_string()), true, true),
        "Hyprland"
    );
    assert_eq!(
        detect_desktop_environment(None, Some("xfce-session".to_string()), true, true),
        "xfce-session"
    );
    assert_eq!(detect_desktop_environment(None, None, true, true), "GNOME");
    assert_eq!(detect_desktop_environment(None, None, false, true), "KDE");
    assert_eq!(detect_desktop_environment(None, None, false, false), "generic");
}

#[test]
fn test_is_hyprland_detection() {
    assert!(is_hyprland(Some("Hyprland")));
    assert!(is_hyprland(Some("wayland:HYPRLAND")));
    assert!(!is_hyprland(Some("GNOME")));
    assert!(!is_hyprland(None));
}

#[test]
fn test_parse_monitor_listing() {
    let lines = vec![
        "Monitor eDP-1 (ID 0): 1920x1080 @ 60.000000 Hz".to_string(),
        "\tfocused: yes".to_string(),
        "Monitor HDMI-A-1 (ID 1): 2560x1440 @ 144.000000 Hz".to_string(),
        "Monitors without parenthesis are skipped".to_string(),
    ];
    let names = parse_monitor_lines(&lines);
    assert_eq!(names, vec!["eDP-1".to_string(), "HDMI-A-1".to_string()]);
    assert!(parse_monitor_lines(&Vec::new()).is_empty());
}

#[test]
fn test_hyprland_commands() {
    let m = HyprlandWallpaperManager;
    let mon = m.monitors_command();
    assert_eq!(mon.program, "hyprctl");
    assert_eq!(args(&mon), vec!["monitors"]);

    let monitors = vec!["eDP-1".to_string(), "HDMI-A-1".to_string()];
    let cmds = m.static_wallpaper_commands(&monitors, "w.png").unwrap();
    assert_eq!(cmds.len(), 2);
    assert_eq!(cmds[0].program, "hyprctl");
    assert_eq!(args(&cmds[0]), vec!["hyprpaper", "wallpaper", "eDP-1,", "w.png"]);
    assert_eq!(args(&cmds[1]), vec!["hyprpaper", "wallpaper", "HDMI-A-1,", "w.png"]);

    let e = m.static_wallpaper_commands(&Vec::new(), "w.png").unwrap_err();
    assert_eq!(e, AppError::Other("No monitors detected".to_string()));

    let v = m.video_wallpaper_command("v.mp4");
    assert_eq!(v.program, "vlc");
    assert_eq!(
        args(&v),
        vec!["--wallpaper-mode", "--no-video-title-show", "--loop", "--no-audio", "v.mp4"]
    );
    let w = m.web_wallpaper_command("https://example.org");
    assert_eq!(w.program, "firefox");
    assert_eq!(args(&w), vec!["--kiosk", "https://example.org"]);

    let shader = m.shader_wallpaper_commands("s.glsl");
    assert_eq!(shader[0].program, "glslviewer");
    assert_eq!(args(&shader[0]), vec!["--fullscreen", "s.glsl"]);
    assert_eq!(shader[1].program, "shadertoy");
    assert_eq!(args(&shader[1]), vec!["s.glsl"]);

    let audio = m.audio_wallpaper_commands("a.glsl");
    assert_eq!(audio[0].program, "cava");
    assert_eq!(args(&audio[0]), vec!["--fullscreen", "a.glsl"]);
    assert_eq!(audio[1].program, "shadertoy");
    assert_eq!(args(&audio[1]), vec!["--audio", "a.glsl"]);

    let clear = m.clear_wallpaper_command();
    assert_eq!(clear.program, "hyprctl");
    assert_eq!(args(&clear), vec!["hyprpaper", "unload", "all"]);
}

#[test]
fn test_hyprland_results() {
    let m = HyprlandWallpaperManager;
    let ok = CommandOutcome {
        spawned: true,
        exit_ok: true,
        stdout: "Monitor eDP-1 (ID 0): x".to_string(),
        stderr: String::new(),
    };
    assert_eq!(m.monitors_result(&ok).unwrap(), "Monitor eDP-1 (ID 0): x");
    let e = m.monitors_result(&outcome(true, false, "denied")).unwrap_err();
    assert_eq!(e, AppError::PlatformError("Failed to get monitors: denied".to_string()));

    let monitors = vec!["eDP-1".to_string()];
    assert!(m
        .static_wallpaper_result(&monitors, &vec![outcome(true, true, "")])
        .is_ok());
    let e = m
        .static_wallpaper_result(&monitors, &vec![outcome(true, false, "nope")])
        .unwrap_err();
    assert_eq!(
        e,
        AppError::PlatformError("Failed to set wallpaper for monitor eDP-1: nope".to_string())
    );

    let e = m
        .chain_result(
            "Failed to set shader wallpaper",
            &vec![outcome(true, false, "first"), outcome(true, false, "last")],
        )
        .unwrap_err();
    assert_eq!(
        e,
        AppError::PlatformError("Failed to set shader wallpaper: last".to_string())
    );
    assert!(m
        .chain_result("x", &vec![outcome(true, true, "")])
        .is_ok());

    assert!(m.clear_result(&outcome(true, true, "")).is_ok());
    let e = m.clear_result(&outcome(true, false, "oops")).unwrap_err();
    assert_eq!(e, AppError::PlatformError("Failed to clear wallpaper: oops".to_string()));
}

#[test]
fn test_windows_commands() {
    let m = WindowsWallpaperManager::new().unwrap();
    let s = m.static_wallpaper_command("C:\\w.png");
    assert_eq!(s.program, "powershell");
    assert_eq!(s.args.len(), 2);
    assert_eq!(s.args[0], "-Command");
    assert!(s.args[1].contains("SystemParametersInfo(0x0014, 0, 'C:\\w.png', 0x01 -bor 0x02)"));

    let c = m.clear_wallpaper_command();
    assert!(c.args[1].contains("SystemParametersInfo(0x0014, 0, '', 0x01 -bor 0x02)"));

    let w = m.web_wallpaper_command("https://example.org");
    assert_eq!(w.program, "start");
    assert_eq!(args(&w), vec!["msedge", "--new-window", "https://example.org"]);

    let v = m.video_wallpaper_command("v.mp4");
    assert_eq!(v.program, "vlc");
    assert_eq!(args(&v), vec!["--video-wallpaper", "--no-audio", "--loop", "v.mp4"]);

    assert_eq!(args(&m.shader_wallpaper_command("s.glsl")), vec!["s.glsl"]);
    assert_eq!(args(&m.audio_wallpaper_command("a.glsl")), vec!["--audio", "a.glsl"]);
    assert!(WindowsWallpaperManager::init().is_ok());
    assert!(LinuxWallpaperManager::init().is_ok());
}

#[test]
fn test_create_wallpaper_manager_selection() {
    match create_wallpaper_manager(OsKind::Windows, None, None, false, false) {
        Ok(PlatformManager::Windows(_)) => {}
        other => panic!("expected the Windows manager, got {:?}", other),
    }
    match create_wallpaper_manager(
        OsKind::Linux,
        Some("Hyprland".to_string()),
        None,
        false,
        false,
    ) {
        Ok(PlatformManager::Hyprland(_)) => {}
        other => panic!("expected the Hyprland manager, got {:?}", other),
    }
    match create_wallpaper_manager(OsKind::Linux, Some("GNOME".to_string()), None, false, false) {
        Ok(PlatformManager::Linux(_)) => {}
        other => panic!("expected the Linux manager, got {:?}", other),
    }
    match create_wallpaper_manager(OsKind::Other, None, None, false, false) {
        Err(AppError::UnsupportedPlatform) => {}
        other => panic!("expected an unsupported-platform error, got {:?}", other),
    }
}
