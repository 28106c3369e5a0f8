use aether_desk::config::WallpaperType;
use aether_desk::error::AppError;
use aether_desk::plugin::PluginRegister;
use aether_desk::wallpapers::{
    AudioWallpaper, ShaderWallpaper, StaticWallpaper, VideoWallpaper, WebWallpaper,
};

#[test]
fn test_static_backend_is_inert() {
    let w = StaticWallpaper::new("still.png");
    assert_eq!(w.get_type(), WallpaperType::Static);
    assert_eq!(w.get_path(), Some("still.png"));
    assert!(w.pause().is_ok());
    assert!(w.resume().is_ok());
}

#[test]
fn test_video_backend_lifecycle() {
    let mut v = VideoWallpaper::new("clip.mp4");
    assert_eq!(v.get_type(), WallpaperType::Video);
    assert_eq!(v.get_path(), Some("clip.mp4"));

    // The asset must exist before anything is spawned.
    let e = v.start_check(false).unwrap_err();
    assert_eq!(
        e,
        AppError::WallpaperError("Video file does not exist: clip.mp4".to_string())
    );
    assert!(v.start_check(true).is_ok());

    v.on_started();
    assert!(!v.resume_needs_restart());
    // Pause is approximated as a stop; resume then needs a restart.
    assert!(v.pause().is_ok());
    assert!(v.resume_needs_restart());
    assert!(v.stop().is_ok());
    assert!(v.resume_needs_restart());
}

#[test]
fn test_mpv_probe_and_args() {
    let candidates = VideoWallpaper::mpv_candidates();
    assert_eq!(
        candidates,
        vec![
            "mpv",
            "mpv.exe",
            "C:\\Program Files\\mpv\\mpv.exe",
            "C:\\Program Files (x86)\\mpv\\mpv.exe",
        ]
    );

    assert_eq!(VideoWallpaper::select_mpv_command(&vec![false, true, true, false]), Ok(1));
    let e = VideoWallpaper::select_mpv_command(&vec![false, false, false, false]).unwrap_err();
    assert_eq!(
        e,
        AppError::WallpaperError(
            "MPV is not installed or not available. Please install MPV from https://mpv.io/"
                .to_string()
        )
    );

    let v = VideoWallpaper::new("clip.mp4");
    let base = vec![
        "--loop-file=inf",
        "--no-audio",
        "--no-border",
        "--osd-level=0",
        "--quiet",
        "--no-config",
        "--no-input-default-bindings",
        "--no-input-cursor",
        "--hwdec=auto",
        "--keepaspect=no",
        "--no-terminal",
    ];

    let mut embedded: Vec<&str> = base.clone();
    embedded.extend(["--wid", "132456", "--no-keepaspect-window", "clip.mp4"]);
    assert_eq!(v.mpv_wallpaper_args(Some("132456"), false), embedded);

    let mut fullscreen: Vec<&str> = base.clone();
    fullscreen.extend(["--fs", "--no-keepaspect", "clip.mp4"]);
    assert_eq!(v.mpv_wallpaper_args(None, false), fullscreen);

    // The fallback for a failed desktop-layer embedding stays on top.
    let mut fallback: Vec<&str> = base.clone();
    fallback.extend(["--fs", "--no-keepaspect", "--ontop", "clip.mp4"]);
    assert_eq!(v.mpv_wallpaper_args(None, true), fallback);
}

#[test]
fn test_web_backend_pause_retry() {
    let mut w = WebWallpaper::new("https://example.org");
    assert_eq!(w.get_type(), WallpaperType::Web);
    assert_eq!(w.get_path(), None);
    w.on_started();

    // No cached pid and the one rediscovery pass found nothing: failure.
    let e = w.pause_target(None).unwrap_err();
    assert_eq!(
        e,
        AppError::WallpaperError("Browser process not found".to_string())
    );

    // The rediscovery result is cached and reused without a fresh pass.
    assert_eq!(w.pause_target(Some(77)), Ok(77));
    assert_eq!(w.pause_target(None), Ok(77));

    assert!(w.pause_outcome(true).is_ok());
    let e = w.pause_outcome(false).unwrap_err();
    assert_eq!(
        e,
        AppError::WallpaperError("Failed to pause web wallpaper".to_string())
    );

    // Resume is an explicit gap, not a silent success.
    let e = w.resume().unwrap_err();
    assert_eq!(
        e,
        AppError::WallpaperError("Web wallpaper resuming not implemented yet".to_string())
    );

    assert!(w.stop().is_ok());
    let e = w.pause_target(None).unwrap_err();
    assert_eq!(
        e,
        AppError::WallpaperError("Browser process not found".to_string())
    );
}

#[test]
fn test_shader_backend_discovery_and_pause() {
    let mut s = ShaderWallpaper::new("fx.glsl");
    assert_eq!(s.get_type(), WallpaperType::Shader);
    assert_eq!(s.get_path(), Some("fx.glsl"));

    // A start whose settle-delay discovery found the helper caches it.
    s.on_started(Some(900));
    assert_eq!(s.pause_target(None), Ok(900));
    assert!(s.pause_outcome(true).is_ok());
    let e = s.pause_outcome(false).unwrap_err();
    assert_eq!(e, AppError::WallpaperError("Failed to pause shader".to_string()));

    let e = s.resume().unwrap_err();
    assert_eq!(
        e,
        AppError::WallpaperError("Shader resuming not implemented yet".to_string())
    );

    // Stop clears the cached pid.
    assert!(s.stop().is_ok());
    let e = s.pause_target(None).unwrap_err();
    assert_eq!(
        e,
        AppError::WallpaperError("Shader process not found".to_string())
    );

    // A start whose discovery failed keeps the backend controllable
    // through a later rediscovery.
    s.on_started(None);
    assert_eq!(s.pause_target(Some(901)), Ok(901));
}

#[test]
fn test_audio_backend_control() {
    let mut a = AudioWallpaper::new("beat.glsl");
    assert_eq!(a.get_type(), WallpaperType::Audio);
    assert_eq!(a.get_path(), Some("beat.glsl"));

    a.on_started(Some(555));
    assert_eq!(a.control_target(None), Ok(555));
    assert!(a.pause_outcome(true).is_ok());
    assert!(a.resume_outcome(true).is_ok());
    let e = a.pause_outcome(false).unwrap_err();
    assert_eq!(
        e,
        AppError::WallpaperError("Failed to pause audio wallpaper".to_string())
    );
    let e = a.resume_outcome(false).unwrap_err();
    assert_eq!(
        e,
        AppError::WallpaperError("Failed to resume audio wallpaper".to_string())
    );

    assert!(a.stop().is_ok());
    let e = a.control_target(None).unwrap_err();
    assert_eq!(
        e,
        AppError::WallpaperError("Audio visualizer process not found".to_string())
    );
}

#[test]
fn test_error_messages() {
    assert_eq!(AppError::ConfigError("c".to_string()).message(), "c");
    assert_eq!(AppError::PlatformError("p".to_string()).message(), "p");
    assert_eq!(AppError::WallpaperError("w".to_string()).message(), "w");
    assert_eq!(AppError::PluginError("g".to_string()).message(), "g");
    assert_eq!(AppError::IoError("i".to_string()).message(), "i");
    assert_eq!(AppError::SerializationError("s".to_string()).message(), "s");
    assert_eq!(AppError::UnsupportedPlatform.message(), "");
    assert_eq!(AppError::Other("o".to_string()).message(), "o");
}

#[test]
fn test_plugin_register() {
    let mut reg = PluginRegister::new();
    assert!(!reg.is_enabled("glow"));
    reg.enable_plugin("glow".to_string()).unwrap();
    reg.enable_plugin("rain".to_string()).unwrap();
    reg.enable_plugin("glow".to_string()).unwrap();
    assert!(reg.is_enabled("glow"));
    assert_eq!(reg.enabled_names(), vec!["glow", "rain"]);
    reg.disable_plugin("glow").unwrap();
    assert!(!reg.is_enabled("glow"));
    assert_eq!(reg.enabled_names(), vec!["rain"]);
}
