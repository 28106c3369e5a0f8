use aether_desk::config::{Config, Theme, WallpaperType};
use aether_desk::experiments::{
    disable_all_experimental_features, enable_all_experimental_features, ExperimentalFeatures,
};
use aether_desk::gallery::{GalleryItem, GalleryView};
use aether_desk::widgets::{
    parse_hex_color, settings_get, CalendarWidget, ClockWidget, NotesWidget, WidgetConfig,
    WidgetManager, WidgetPosition, WidgetSize, WidgetType,
};
use aether_desk::window::{check_desktop_integration, WindowManager};

fn settings(pairs: &[(&str, &str)]) -> Vec<(String, String)> {
    pairs.iter().map(|(k, v)| (k.to_string(), v.to_string())).collect()
}

#[test]
fn test_config_creation() {
    let config = Config::default();
    assert_eq!(config.wallpaper.wallpaper_type, WallpaperType::Static);
    assert!(!config.wallpaper.auto_change.enabled);
    assert_eq!(config.wallpaper.auto_change.interval, 30);
}

#[test]
fn test_config_defaults_full() {
    let config = Config::default();
    assert!(config.wallpaper.current_path.is_none());
    assert!(!config.app.start_with_system);
    assert!(config.app.show_in_tray);
    assert!(config.app.minimize_to_tray);
    assert_eq!(config.app.theme.theme, Theme::Dark);
    assert!(config.plugins.enabled.is_empty());
}

#[test]
fn test_window_manager_creation() {
    let wm = WindowManager::new();
    assert!(wm.get_window().is_none());
    assert!(wm.get_workerw().is_none());
}

#[test]
fn test_check_desktop_integration() {
    // This should not panic.
    let available = check_desktop_integration(None);
    println!("Desktop integration available: {}", available);
    assert!(!available);
    assert!(check_desktop_integration(Some(42)));
}

#[test]
fn test_window_manager_records_handles() {
    let mut wm = WindowManager::new();
    wm.record_workerw(7);
    wm.record_window(9);
    assert_eq!(wm.get_workerw(), Some(7));
    assert_eq!(wm.get_window(), Some(9));
    assert!(wm.is_window_valid(true));
    assert!(!wm.is_window_valid(false));
    assert_eq!(wm.take_window(), Some(9));
    assert!(wm.get_window().is_none());
    assert!(!wm.is_window_valid(true));
}

#[test]
fn test_experimental_feature_switches() {
    let mut f = ExperimentalFeatures::default();
    assert!(!f.widgets && !f.ai && !f.effects && !f.performance && !f.wallpapers && !f.services);
    enable_all_experimental_features(&mut f);
    assert!(f.widgets && f.ai && f.effects && f.performance && f.wallpapers && f.services);
    disable_all_experimental_features(&mut f);
    assert!(!f.widgets && !f.ai && !f.effects && !f.performance && !f.wallpapers && !f.services);
}

#[test]
fn test_parse_hex_color_exact() {
    assert_eq!(parse_hex_color("#f0a01b"), Some((240, 160, 27)));
    assert_eq!(parse_hex_color("#FFFFFF"), Some((255, 255, 255)));
    assert_eq!(parse_hex_color("#000000"), Some((0, 0, 0)));
    assert_eq!(parse_hex_color("f0a01b"), None);
    assert_eq!(parse_hex_color("#f0a01"), None);
    assert_eq!(parse_hex_color("#f0a01bb"), None);
    assert_eq!(parse_hex_color("#f0a0g1"), None);
}

#[test]
fn test_clock_and_calendar_widgets() {
    let clock = ClockWidget::new(settings(&[("time_format", "%H:%M:%S")]));
    assert_eq!(clock.get_type(), WidgetType::Clock);
    assert_eq!(clock.get_name(), "Clock");
    assert_eq!(clock.get_description(), "Displays the current time");
    assert_eq!(
        clock.get_settings(),
        settings(&[("time_format", "%H:%M:%S")])
    );

    let mut calendar = CalendarWidget::new(settings(&[]));
    assert_eq!(calendar.get_type(), WidgetType::Calendar);
    assert_eq!(calendar.get_name(), "Calendar");
    calendar.update_settings(settings(&[("week_start", "monday")]));
    assert_eq!(
        settings_get(&calendar.get_settings(), "week_start").as_deref(),
        Some("monday")
    );
}

#[test]
fn test_notes_widget_content() {
    let notes = NotesWidget::new(settings(&[
        ("content", "hello desktop"),
        ("font_size", "14"),
    ]));
    assert_eq!(notes.get_type(), WidgetType::Notes);
    let s = notes.get_settings();
    assert_eq!(settings_get(&s, "content").as_deref(), Some("hello desktop"));
    assert_eq!(settings_get(&s, "font_size").as_deref(), Some("14"));

    // Without a content entry the notes start empty.
    let mut empty = NotesWidget::new(settings(&[("bg_color", "#f0f0f0")]));
    assert_eq!(
        settings_get(&empty.get_settings(), "content").as_deref(),
        Some("")
    );

    // An update that carries content replaces the notes.
    empty.update_settings(settings(&[("content", "new text")]));
    assert_eq!(
        settings_get(&empty.get_settings(), "content").as_deref(),
        Some("new text")
    );
}

#[test]
fn test_settings_first_match() {
    let s = settings(&[("k", "first"), ("k", "second"), ("other", "x")]);
    assert_eq!(settings_get(&s, "k").as_deref(), Some("first"));
    assert_eq!(settings_get(&s, "other").as_deref(), Some("x"));
    assert_eq!(settings_get(&s, "missing"), None);
}

fn widget_config(t: WidgetType, enabled: bool) -> WidgetConfig {
    WidgetConfig {
        widget_type: t,
        position: WidgetPosition::TopLeft,
        size: WidgetSize::Small,
        settings: Vec::new(),
        enabled,
        background_color: None,
        opacity: None,
    }
}

#[test]
fn test_widget_manager_configs() {
    let mut wm = WidgetManager::new();
    assert!(wm.get_widget_configs().is_empty());

    wm.add_widget("clock".to_string(), widget_config(WidgetType::Clock, true)).unwrap();
    wm.add_widget("notes".to_string(), widget_config(WidgetType::Notes, false)).unwrap();
    wm.add_widget(
        "plugin".to_string(),
        widget_config(WidgetType::Custom("mine".to_string()), true),
    )
    .unwrap();
    assert_eq!(wm.get_widget_configs().len(), 3);

    // Only the enabled built-in widget is built: the disabled notes widget
    // and the unimplemented custom widget are skipped.
    assert_eq!(wm.widgets_to_create(), vec![0]);

    // Adding under an existing name replaces in place.
    wm.update_widget("notes".to_string(), widget_config(WidgetType::Notes, true)).unwrap();
    assert_eq!(wm.get_widget_configs().len(), 3);
    assert_eq!(wm.widgets_to_create(), vec![0, 1]);
    assert!(wm.get_widget_config("notes").unwrap().enabled);
    assert!(wm.get_widget_config("ghost").is_none());

    wm.remove_widget("clock").unwrap();
    assert_eq!(wm.get_widget_configs().len(), 2);
    wm.remove_widget("ghost").unwrap();
    assert_eq!(wm.get_widget_configs().len(), 2);

    wm.start().unwrap();
    wm.stop().unwrap();
}

#[test]
fn test_default_widget_configs() {
    let defaults = WidgetManager::default_widget_configs();
    assert_eq!(defaults.len(), 3);
    assert_eq!(defaults[0].0, "clock");
    assert_eq!(defaults[0].1.widget_type, WidgetType::Clock);
    assert_eq!(defaults[0].1.position, WidgetPosition::TopRight);
    assert_eq!(defaults[1].0, "weather");
    assert_eq!(defaults[1].1.widget_type, WidgetType::Weather);
    assert_eq!(defaults[2].0, "notes");
    assert_eq!(defaults[2].1.position, WidgetPosition::BottomRight);
    let notes = &defaults[2].1.settings;
    assert_eq!(settings_get(notes, "font_size").as_deref(), Some("14"));
    assert_eq!(settings_get(notes, "bg_color").as_deref(), Some("#f0f0f0"));
    assert!(settings_get(notes, "content").unwrap().starts_with("Welcome to Aether-Desk!"));
    assert!(defaults.iter().all(|(_, c)| c.enabled));
}

#[test]
fn test_gallery_item_from_path() {
    let item = GalleryItem::from_path("/home/me/walls/sunset.PNG".to_string(), WallpaperType::Static);
    assert_eq!(item.name, "sunset");
    assert_eq!(item.description, "Static wallpaper (PNG)");
    assert_eq!(item.path.as_deref(), Some("/home/me/walls/sunset.PNG"));
    assert!(item.url.is_none());
    assert_eq!(item.author, "Unknown");
    assert_eq!(item.version, "1.0.0");

    let no_ext = GalleryItem::from_path("clip".to_string(), WallpaperType::Video);
    assert_eq!(no_ext.name, "clip");
    assert_eq!(no_ext.description, "Video wallpaper ()");

    let empty = GalleryItem::from_path("walls/".to_string(), WallpaperType::Static);
    assert_eq!(empty.name, "Unknown");

    let dotted = GalleryItem::from_path("/x/archive.tar.gz".to_string(), WallpaperType::Static);
    assert_eq!(dotted.name, "archive.tar");
    assert_eq!(dotted.description, "Static wallpaper (gz)");

    let hidden = GalleryItem::from_path("/x/.bashrc".to_string(), WallpaperType::Static);
    assert_eq!(hidden.name, ".bashrc");
    assert_eq!(hidden.description, "Static wallpaper ()");
}

#[test]
fn test_gallery_item_from_url() {
    let item = GalleryItem::from_url("https://example.org".to_string(), WallpaperType::Web);
    assert_eq!(item.name, "https://example.org");
    assert_eq!(item.description, "Web wallpaper: https://example.org");
    assert!(item.path.is_none());
    assert_eq!(item.url.as_deref(), Some("https://example.org"));
}

#[test]
fn test_wallpaper_type_as_str() {
    assert_eq!(WallpaperType::Static.as_str(), "Static");
    assert_eq!(WallpaperType::Video.as_str(), "Video");
    assert_eq!(WallpaperType::Web.as_str(), "Web");
    assert_eq!(WallpaperType::Shader.as_str(), "Shader");
    assert_eq!(WallpaperType::Audio.as_str(), "Audio");
}

#[test]
fn test_gallery_selection_and_apply_plan() {
    let mut g = GalleryView::new();
    assert_eq!(
        g.apply_selected_plan().unwrap_err(),
        "No wallpaper selected"
    );

    g.add_wallpaper(GalleryItem::from_path("a.png".to_string(), WallpaperType::Static));
    g.add_wallpaper(GalleryItem::from_url(
        "https://example.org".to_string(),
        WallpaperType::Web,
    ));

    g.select_wallpaper(0);
    let plan = g.apply_selected_plan().unwrap();
    assert_eq!(plan.kind, WallpaperType::Static);
    assert_eq!(plan.source, "a.png");

    g.select_wallpaper(1);
    let plan = g.apply_selected_plan().unwrap();
    assert_eq!(plan.kind, WallpaperType::Web);
    assert_eq!(plan.source, "https://example.org");

    // Out-of-range selection clears the selection.
    g.select_wallpaper(9);
    assert!(g.get_selected_wallpaper().is_none());

    // A web item without a URL is rejected.
    let mut broken = GalleryItem::from_url("u".to_string(), WallpaperType::Web);
    broken.url = None;
    g.add_wallpaper(broken);
    g.select_wallpaper(2);
    assert_eq!(
        g.apply_selected_plan().unwrap_err(),
        "Web wallpaper requires a URL"
    );

    let removed = g.remove_wallpaper(0).unwrap();
    assert_eq!(removed.name, "a");
    assert!(g.remove_wallpaper(9).is_none());
}

#[test]
fn test_extension_classification() {
    let g = GalleryView::new();
    assert!(g.is_valid_extension("x/y/photo.JPG", &WallpaperType::Static));
    assert!(g.is_valid_extension("photo.jpeg", &WallpaperType::Static));
    assert!(!g.is_valid_extension("photo.jpg", &WallpaperType::Video));
    assert!(g.is_valid_extension("clip.webm", &WallpaperType::Video));
    assert!(g.is_valid_extension("fx.frag", &WallpaperType::Shader));
    assert!(g.is_valid_extension("fx.glsl", &WallpaperType::Audio));
    assert!(!g.is_valid_extension("page.html", &WallpaperType::Web));

    assert_eq!(g.determine_wallpaper_type("a.gif"), WallpaperType::Static);
    assert_eq!(g.determine_wallpaper_type("a.MKV"), WallpaperType::Video);
    assert_eq!(g.determine_wallpaper_type("a.vert"), WallpaperType::Shader);
    assert_eq!(g.determine_wallpaper_type("a.txt"), WallpaperType::Static);
}
