use aether_desk::config::WallpaperType;
use aether_desk::error::AppError;
use aether_desk::schedule::{
    ClockReading, ScheduleItem, TriggerTime, TriggerType, WallpaperScheduler,
};
use aether_desk::types::WallpaperInfo;
use aether_desk::wallpapers::{backend_for, ActiveWallpaper};

fn static_info(name: &str, path: &str) -> WallpaperInfo {
    WallpaperInfo {
        name: name.to_string(),
        description: String::new(),
        author: String::new(),
        version: String::new(),
        kind: WallpaperType::Static,
        path: Some(path.to_string()),
        url: None,
    }
}

fn video_info(path: &str) -> WallpaperInfo {
    WallpaperInfo {
        name: "clip".to_string(),
        description: String::new(),
        author: String::new(),
        version: String::new(),
        kind: WallpaperType::Video,
        path: Some(path.to_string()),
        url: None,
    }
}

fn time_item(hour: u8, minute: u8, enabled: bool) -> ScheduleItem {
    ScheduleItem {
        trigger: TriggerType::Time(TriggerTime { hour, minute }),
        wallpaper: static_info("timed", "a.png"),
        enabled,
    }
}

fn at(secs: u64, hour: u8, minute: u8) -> ClockReading {
    ClockReading { secs, hour, minute }
}

#[test]
fn test_two_ticks_same_minute_one_pass() {
    let mut s = WallpaperScheduler::new();
    s.start().unwrap();
    s.add_schedule_item(time_item(8, 0, true)).unwrap();

    // 08:00:10 and 08:00:50 of the same day, with a pass long overdue.
    let first = s.tick(at(1_000_010, 8, 0));
    let second = s.tick(at(1_000_050, 8, 0));

    assert!(first.is_some());
    assert!(second.is_none());
}

#[test]
fn test_two_ticks_straddling_a_due_pass() {
    let mut s = WallpaperScheduler::new();
    s.start().unwrap();
    s.add_schedule_item(time_item(8, 0, true)).unwrap();

    // The last pass ran 40 seconds before the first tick: the first tick
    // is not yet due, the second one is — still exactly one pass.
    let _ = s.tick(at(999_970, 7, 59));
    let first = s.tick(at(1_000_010, 8, 0));
    let second = s.tick(at(1_000_040, 8, 0));
    assert!(first.is_none());
    assert!(second.is_some());
}

#[test]
fn test_interval_trigger_fires_on_every_pass() {
    let mut s = WallpaperScheduler::new();
    s.start().unwrap();
    s.add_schedule_item(ScheduleItem {
        trigger: TriggerType::Interval(3600),
        wallpaper: static_info("interval", "i.png"),
        enabled: true,
    })
    .unwrap();

    // No per-item last-fired time is tracked: the item fires on each of
    // two passes a minute apart, regardless of its configured interval.
    let p1 = s.tick(at(1_000, 8, 0)).expect("a pass was due");
    let p2 = s.tick(at(1_060, 8, 1)).expect("a pass was due");
    assert_eq!(p1.fired, vec![0]);
    assert_eq!(p2.fired, vec![0]);
}

#[test]
fn test_time_trigger_fires_in_its_minute_only() {
    let mut s = WallpaperScheduler::new();
    s.start().unwrap();
    s.add_schedule_item(time_item(8, 0, true)).unwrap();

    // Evaluated at 08:00:30 the trigger fires exactly once in the pass.
    let pass = s.tick(at(10_000, 8, 0)).expect("a pass was due");
    assert_eq!(pass.fired, vec![0]);

    // Evaluated at 08:01:00, with no prior 08:00 pass, it does not fire:
    // there is no catch-up.
    let mut late = WallpaperScheduler::new();
    late.start().unwrap();
    late.add_schedule_item(time_item(8, 0, true)).unwrap();
    let pass = late.tick(at(10_030, 8, 1)).expect("a pass was due");
    assert!(pass.fired.is_empty());
}

#[test]
fn test_disabled_items_and_inert_triggers() {
    let mut s = WallpaperScheduler::new();
    s.start().unwrap();
    s.add_schedule_item(time_item(8, 0, false)).unwrap();
    s.add_schedule_item(ScheduleItem {
        trigger: TriggerType::SystemEvent("startup".to_string()),
        wallpaper: static_info("sys", "s.png"),
        enabled: true,
    })
    .unwrap();
    s.add_schedule_item(ScheduleItem {
        trigger: TriggerType::Custom("my-trigger".to_string()),
        wallpaper: static_info("custom", "c.png"),
        enabled: true,
    })
    .unwrap();
    s.add_schedule_item(ScheduleItem {
        trigger: TriggerType::Interval(3600),
        wallpaper: static_info("interval", "i.png"),
        enabled: true,
    })
    .unwrap();

    let pass = s.tick(at(100_000, 8, 0)).expect("a pass was due");
    // The disabled time item and the logged-only triggers stay quiet; the
    // interval item fires on every pass.
    assert_eq!(pass.fired, vec![3]);
}

#[test]
fn test_tick_needs_running_scheduler() {
    let mut s = WallpaperScheduler::new();
    s.add_schedule_item(time_item(8, 0, true)).unwrap();
    assert!(s.tick(at(1_000_000, 8, 0)).is_none());
    s.start().unwrap();
    assert!(s.tick(at(1_000_000, 8, 0)).is_some());
    s.stop().unwrap();
    assert!(s.tick(at(2_000_000, 8, 0)).is_none());
}

#[test]
fn test_schedule_item_crud() {
    let mut s = WallpaperScheduler::new();
    assert!(s.get_schedule_items().is_empty());

    s.add_schedule_item(time_item(8, 0, true)).unwrap();
    s.add_schedule_item(time_item(18, 0, true)).unwrap();
    assert_eq!(s.get_schedule_items().len(), 2);

    s.update_schedule_item(1, time_item(19, 30, false)).unwrap();
    let items = s.get_schedule_items();
    assert_eq!(
        items[1].trigger,
        TriggerType::Time(TriggerTime { hour: 19, minute: 30 })
    );
    assert!(!items[1].enabled);

    let e = s.update_schedule_item(2, time_item(1, 0, true)).unwrap_err();
    assert_eq!(e, AppError::Other("Invalid schedule item index".to_string()));

    s.remove_schedule_item(0).unwrap();
    assert_eq!(s.get_schedule_items().len(), 1);
    let e = s.remove_schedule_item(5).unwrap_err();
    assert_eq!(e, AppError::Other("Invalid schedule item index".to_string()));
}

#[test]
fn test_default_schedule_items() {
    let items = WallpaperScheduler::default_schedule_items();
    assert_eq!(items.len(), 2);
    assert_eq!(items[0].wallpaper.name, "Morning");
    assert_eq!(
        items[0].trigger,
        TriggerType::Time(TriggerTime { hour: 8, minute: 0 })
    );
    assert_eq!(
        items[0].wallpaper.path.as_deref(),
        Some("assets/wallpapers/morning.jpg")
    );
    assert_eq!(items[1].wallpaper.name, "Evening");
    assert_eq!(
        items[1].trigger,
        TriggerType::Time(TriggerTime { hour: 18, minute: 0 })
    );
    assert!(items.iter().all(|i| i.enabled));
}

#[test]
fn test_apply_stops_video_before_starting_static() {
    let mut s = WallpaperScheduler::new();

    // A video backend is active.
    let video_plan = s.plan_apply(&video_info("clip.mp4")).unwrap();
    assert!(video_plan.stop_first.is_none());
    s.commit_apply(video_plan, Ok(Some(4321))).unwrap();
    let video = s.get_current_wallpaper().unwrap();
    assert_eq!(video.kind, WallpaperType::Video);

    // Applying a static wallpaper plans the video's stop strictly before
    // the static start.
    let plan = s.plan_apply(&static_info("calm", "calm.png")).unwrap();
    assert_eq!(plan.stop_first, Some(video));
    assert_eq!(plan.start.kind, WallpaperType::Static);
    assert_eq!(plan.start.source, "calm.png");

    // After the start succeeds the slot holds only the static backend.
    s.commit_apply(plan, Ok(None)).unwrap();
    let current = s.get_current_wallpaper().unwrap();
    assert_eq!(current.kind, WallpaperType::Static);
    assert_eq!(current.source, "calm.png");
    assert_eq!(current.pid, None);
}

#[test]
fn test_failed_start_leaves_slot_unchanged() {
    let mut s = WallpaperScheduler::new();

    let first = s.plan_apply(&static_info("base", "base.png")).unwrap();
    s.commit_apply(first, Ok(None)).unwrap();
    let before = s.get_current_wallpaper();

    // A video item whose path does not exist: the start fails, and the
    // slot keeps whatever it held before the pass.
    let plan = s.plan_apply(&video_info("missing.mp4")).unwrap();
    let err = AppError::WallpaperError("Video file does not exist: missing.mp4".to_string());
    let r = s.commit_apply(plan, Err(err.clone()));
    assert_eq!(r, Err(err));
    assert_eq!(s.get_current_wallpaper(), before);
}

#[test]
fn test_plan_apply_rejects_malformed_description() {
    let s = WallpaperScheduler::new();
    let mut info = static_info("broken", "x.png");
    info.path = None;
    let e = s.plan_apply(&info).unwrap_err();
    assert_eq!(
        e,
        AppError::WallpaperError("Static wallpaper path is missing".to_string())
    );
    assert!(s.get_current_wallpaper().is_none());
}

#[test]
fn test_clear_current_always_empties_slot() {
    let mut s = WallpaperScheduler::new();
    let plan = s.plan_apply(&static_info("one", "one.png")).unwrap();
    s.commit_apply(plan, Ok(None)).unwrap();
    assert!(s.get_current_wallpaper().is_some());
    // Stop is best-effort: even after a failed stop the slot is cleared.
    s.clear_current();
    assert!(s.get_current_wallpaper().is_none());
}

#[test]
fn test_backend_for_each_kind() {
    let web = WallpaperInfo {
        name: "page".to_string(),
        description: String::new(),
        author: String::new(),
        version: String::new(),
        kind: WallpaperType::Web,
        path: None,
        url: Some("https://example.org".to_string()),
    };
    let b = backend_for(&web).unwrap();
    assert_eq!(
        b,
        ActiveWallpaper {
            kind: WallpaperType::Web,
            source: "https://example.org".to_string(),
            pid: None
        }
    );

    let mut missing_url = web.clone();
    missing_url.url = None;
    let e = backend_for(&missing_url).unwrap_err();
    assert_eq!(
        e,
        AppError::WallpaperError("Web wallpaper URL is missing".to_string())
    );

    // A web description that carries a file path on top of its URL names
    // the actual defect.
    let mut extra_path = web.clone();
    extra_path.path = Some("spurious.png".to_string());
    let e = backend_for(&extra_path).unwrap_err();
    assert_eq!(
        e,
        AppError::WallpaperError("Web wallpaper must not carry a file path".to_string())
    );

    for (kind, message) in [
        (WallpaperType::Video, "Video wallpaper path is missing"),
        (WallpaperType::Shader, "Shader wallpaper path is missing"),
        (WallpaperType::Audio, "Audio wallpaper path is missing"),
    ] {
        let mut info = static_info("x", "x.bin");
        info.kind = kind;
        assert_eq!(backend_for(&info).unwrap().kind, kind);
        info.path = None;
        let e = backend_for(&info).unwrap_err();
        assert_eq!(e, AppError::WallpaperError(message.to_string()));
    }

    // A path-backed description that also carries a URL names that defect.
    let mut extra_url = static_info("x", "x.png");
    extra_url.url = Some("https://example.org".to_string());
    let e = backend_for(&extra_url).unwrap_err();
    assert_eq!(
        e,
        AppError::WallpaperError("Static wallpaper must not carry a URL".to_string())
    );
}

#[test]
fn test_run_tick_touches_only_the_clock() {
    let mut s = WallpaperScheduler::new();
    s.add_schedule_item(time_item(8, 0, true)).unwrap();
    s.start().unwrap();
    let _ = s.run_tick();
    assert_eq!(s.get_schedule_items().len(), 1);
    assert!(s.get_current_wallpaper().is_none());
}
