use aether_desk::process::{
    audio_tool_names, browser_tool_names, find_process, shader_tool_names, ProcessRecord,
    SETTLE_DELAY_MILLIS,
};
use aether_desk::text::{contains_ignore_case, contains_substr, find_from, str_eq};

fn record(pid: u32, name: &str, cmdline: &str) -> ProcessRecord {
    ProcessRecord { pid, name: name.to_string(), cmdline: cmdline.to_string() }
}

#[test]
fn test_find_process_first_match_wins() {
    let procs = vec![
        record(100, "bash", "bash -c shadertoy demo.glsl"),
        record(200, "shadertoy", "shadertoy /home/me/other.glsl"),
        record(300, "shadertoy", "shadertoy /home/me/demo.glsl"),
        record(400, "glslviewer", "glslviewer /home/me/demo.glsl"),
    ];
    // The bash row's name is not a known tool; the first shadertoy row's
    // command line misses the asset; the third row is the first match.
    assert_eq!(
        find_process(&procs, &shader_tool_names(), "/home/me/demo.glsl"),
        Some(300)
    );
    assert_eq!(find_process(&procs, &shader_tool_names(), "/nowhere.glsl"), None);
    assert_eq!(find_process(&Vec::new(), &shader_tool_names(), "x"), None);
}

#[test]
fn test_tool_name_sets() {
    assert_eq!(shader_tool_names(), vec!["shadertoy", "glslviewer"]);
    assert_eq!(audio_tool_names(), vec!["shadertoy", "vlc", "audacious", "cava"]);
    assert_eq!(browser_tool_names(), vec!["firefox", "chrome", "chromium"]);
    assert_eq!(SETTLE_DELAY_MILLIS, 500);
}

#[test]
fn test_substring_search() {
    assert!(contains_substr("firefox --kiosk https://example.org", "https://example.org"));
    assert!(contains_substr("abc", ""));
    assert!(!contains_substr("abc", "abcd"));
    assert!(!contains_substr("abca", "cb"));
    assert!(contains_substr("ababc", "abc"));
}

#[test]
fn test_find_from_positions() {
    assert_eq!(find_from("Monitor eDP-1 (ID 0)", "Monitor ", 0), Some(0));
    assert_eq!(find_from("xx Monitor y", "Monitor ", 0), Some(3));
    assert_eq!(find_from("aaa", "a", 1), Some(1));
    assert_eq!(find_from("aaa", "b", 0), None);
}

#[test]
fn test_string_comparisons() {
    assert!(str_eq("same", "same"));
    assert!(!str_eq("same", "Same"));
    assert!(contains_ignore_case("wayland:HYPRLAND", "hyprland"));
    assert!(!contains_ignore_case("wayland", "hyprland"));
}
