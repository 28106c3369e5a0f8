//! Application configuration: wallpaper settings, app behaviour, theming and
//! the plugin allow-list.
//!
//! Loading and saving these records from disk is the job of the surrounding
//! program; this module holds the data and its defaults.

use vstd::prelude::*;

verus! {

/// The five wallpaper kinds the orchestrator knows how to drive.
#[derive(Debug, Clone, Copy, PartialEq, Eq, Structural)]
pub enum WallpaperType {
    /// Static image.
    Static,
    /// Video.
    Video,
    /// Web-based.
    Web,
    /// Shader-based.
    Shader,
    /// Audio-reactive.
    Audio,
}

impl WallpaperType {
    /// Get a string representation of the wallpaper type.
    pub fn as_str(&self) -> (r: &'static str)
        ensures
            r@ == self.spec_str(),
    {
        match self {
            WallpaperType::Static => "Static",
            WallpaperType::Video => "Video",
            WallpaperType::Web => "Web",
            WallpaperType::Shader => "Shader",
            WallpaperType::Audio => "Audio",
        }
    }

    /// The name of the wallpaper type, as a sequence of characters.
    pub open spec fn spec_str(&self) -> Seq<char> {
        match self {
            WallpaperType::Static => "Static"@,
            WallpaperType::Video => "Video"@,
            WallpaperType::Web => "Web"@,
            WallpaperType::Shader => "Shader"@,
            WallpaperType::Audio => "Audio"@,
        }
    }
}

/// Theme type.
#[derive(Debug, Clone, Copy, PartialEq, Eq, Structural)]
pub enum Theme {
    Light,
    Dark,
    Custom,
}

/// Theme configuration.
#[derive(Debug, Clone)]
pub struct ThemeConfig {
    /// Theme type.
    pub theme: Theme,
    /// Custom accent color (if custom theme), as a hex string.
    pub accent_color: Option<String>,
    /// Custom background color (if custom theme), as a hex string.
    pub background_color: Option<String>,
}

impl Default for ThemeConfig {
    /// The default theme: dark, with no custom colors.
    fn default() -> (r: Self)
        ensures
            r.theme == Theme::Dark,
            r.accent_color is None,
            r.background_color is None,
    {
        ThemeConfig { theme: Theme::Dark, accent_color: None, background_color: None }
    }
}

/// Auto-change configuration.
#[derive(Debug, Clone)]
pub struct AutoChangeConfig {
    /// Whether auto-change is enabled.
    pub enabled: bool,
    /// Change interval in minutes.
    pub interval: u32,
    /// Folder to pick wallpapers from.
    pub folder: Option<String>,
}

/// Wallpaper configuration.
#[derive(Debug, Clone)]
pub struct WallpaperConfig {
    /// Current wallpaper path.
    pub current_path: Option<String>,
    /// Wallpaper type.
    pub wallpaper_type: WallpaperType,
    /// Auto-change settings.
    pub auto_change: AutoChangeConfig,
}

/// Application behaviour configuration.
#[derive(Debug, Clone)]
pub struct AppConfig {
    /// Whether to start with the system.
    pub start_with_system: bool,
    /// Whether to show in the system tray.
    pub show_in_tray: bool,
    /// Whether to minimize to the tray.
    pub minimize_to_tray: bool,
    /// Theme configuration.
    pub theme: ThemeConfig,
}

/// Plugin configuration: the names of the enabled plugins.
#[derive(Debug, Clone)]
pub struct PluginConfig {
    /// Enabled plugins.
    pub enabled: Vec<String>,
}

/// Application configuration.
#[derive(Debug, Clone)]
pub struct Config {
    /// Current wallpaper settings.
    pub wallpaper: WallpaperConfig,
    /// Application settings.
    pub app: AppConfig,
    /// Plugin settings.
    pub plugins: PluginConfig,
}

impl Default for Config {
    /// The stock configuration: a static wallpaper slot with auto-change off
    /// at a 30 minute interval, tray enabled, dark theme, no plugins.
    fn default() -> (r: Self)
        ensures
            r.wallpaper.current_path is None,
            r.wallpaper.wallpaper_type == WallpaperType::Static,
            !r.wallpaper.auto_change.enabled,
            r.wallpaper.auto_change.interval == 30,
            r.wallpaper.auto_change.folder is None,
            !r.app.start_with_system,
            r.app.show_in_tray,
            r.app.minimize_to_tray,
            r.app.theme.theme == Theme::Dark,
            r.plugins.enabled@.len() == 0,
    {
        Config {
            wallpaper: WallpaperConfig {
                current_path: None,
                wallpaper_type: WallpaperType::Static,
                auto_change: AutoChangeConfig { enabled: false, interval: 30, folder: None },
            },
            app: AppConfig {
                start_with_system: false,
                show_in_tray: true,
                minimize_to_tray: true,
                theme: ThemeConfig::default(),
            },
            plugins: PluginConfig { enabled: Vec::new() },
        }
    }
}

} // verus!
