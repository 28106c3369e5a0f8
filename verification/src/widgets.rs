//! Desktop widgets: their configuration records and the settings logic of
//! the simple widgets.
//!
//! Widget visuals are drawn by the surrounding program; what lives here is
//! the data each widget keeps — its settings list and derived state — with
//! exact contracts. Settings are an ordered list of key/value pairs; a
//! lookup sees the first entry carrying its key.

use vstd::prelude::*;
use vstd::string::*;

use crate::error::AppError;

verus! {

/// Widget type.
#[derive(Debug, Clone, PartialEq, Eq)]
pub enum WidgetType {
    /// Clock widget.
    Clock,
    /// Weather widget.
    Weather,
    /// System monitor widget.
    SystemMonitor,
    /// Calendar widget.
    Calendar,
    /// Notes widget.
    Notes,
    /// Custom widget, by name.
    Custom(String),
}

/// Widget position.
#[derive(Debug, Clone, Copy, PartialEq, Eq, Structural)]
pub enum WidgetPosition {
    /// Top left.
    TopLeft,
    /// Top right.
    TopRight,
    /// Bottom left.
    BottomLeft,
    /// Bottom right.
    BottomRight,
    /// Custom position (x, y).
    Custom(i32, i32),
}

/// Widget size.
#[derive(Debug, Clone, Copy, PartialEq, Eq, Structural)]
pub enum WidgetSize {
    /// Small size.
    Small,
    /// Medium size.
    Medium,
    /// Large size.
    Large,
    /// Custom size (width, height).
    Custom(u32, u32),
}

/// Widget settings: an ordered list of key/value pairs.
pub type WidgetSettings = Vec<(String, String)>;

/// The value under a key, starting the scan at position `i`: the first
/// entry at or after `i` whose key matches.
pub open spec fn spec_settings_get_from(
    s: Seq<(String, String)>,
    key: Seq<char>,
    i: int,
) -> Option<Seq<char>>
    decreases s.len() - i,
{
    if i < 0 || i >= s.len() {
        None
    } else if s[i].0@ == key {
        Some(s[i].1@)
    } else {
        spec_settings_get_from(s, key, i + 1)
    }
}

/// The value under a key: the first entry carrying it, if any.
pub open spec fn spec_settings_get(s: Seq<(String, String)>, key: Seq<char>) -> Option<Seq<char>> {
    spec_settings_get_from(s, key, 0)
}

/// Look up the value under a key, scanning from position `i`.
fn settings_get_from(s: &WidgetSettings, key: &str, i: usize) -> (r: Option<String>)
    requires
        i <= s@.len(),
    ensures
        match r {
            Some(v) => spec_settings_get_from(s@, key@, i as int) == Some(v@),
            None => spec_settings_get_from(s@, key@, i as int) is None,
        },
    decreases s@.len() - i,
{
    if i >= s.len() {
        None
    } else if crate::text::str_eq(s[i].0.as_str(), key) {
        Some(s[i].1.clone())
    } else {
        settings_get_from(s, key, i + 1)
    }
}

/// Look up the value under a key: the first entry carrying it, if any.
pub fn settings_get(s: &WidgetSettings, key: &str) -> (r: Option<String>)
    ensures
        match r {
            Some(v) => spec_settings_get(s@, key@) == Some(v@),
            None => spec_settings_get(s@, key@) is None,
        },
{
    settings_get_from(s, key, 0)
}

/// Copy a settings list entry by entry.
pub fn settings_duplicate(s: &WidgetSettings) -> (r: WidgetSettings)
    ensures
        r@ == s@,
{
    let n = s.len();
    let mut r: WidgetSettings = Vec::new();
    let mut i: usize = 0;
    while i < n
        invariant
            i <= n,
            n == s@.len(),
            r@ == s@.take(i as int),
        decreases n - i,
    {
        r.push((s[i].0.clone(), s[i].1.clone()));
        proof {
            assert(s@.take(i + 1) =~= s@.take(i as int).push(s@[i as int]));
        }
        i = i + 1;
    }
    proof {
        assert(s@.take(n as int) =~= s@);
    }
    r
}

/// Widget configuration.
///
/// The background color is carried as red, green, blue and alpha channels;
/// the opacity as a whole percentage, 0 to 100.
#[derive(Debug, Clone)]
pub struct WidgetConfig {
    /// Widget type.
    pub widget_type: WidgetType,
    /// Widget position.
    pub position: WidgetPosition,
    /// Widget size.
    pub size: WidgetSize,
    /// Widget settings.
    pub settings: WidgetSettings,
    /// Whether the widget is enabled.
    pub enabled: bool,
    /// Widget background color (red, green, blue, alpha).
    pub background_color: Option<(u8, u8, u8, u8)>,
    /// Widget opacity as a whole percentage, 0 to 100.
    pub opacity: Option<u8>,
}

/// Clock widget: displays the current time.
#[derive(Debug, Clone)]
pub struct ClockWidget {
    /// Widget settings.
    settings: WidgetSettings,
}

impl ClockWidget {
    /// Create a new clock widget.
    pub fn new(settings: WidgetSettings) -> (r: Self)
        ensures
            r.spec_settings() == settings@,
    {
        ClockWidget { settings }
    }

    /// The widget settings.
    pub closed spec fn spec_settings(&self) -> Seq<(String, String)> {
        self.settings@
    }

    /// Get the widget type.
    pub fn get_type(&self) -> (r: WidgetType)
        ensures
            r == WidgetType::Clock,
    {
        WidgetType::Clock
    }

    /// Get the widget name.
    pub fn get_name(&self) -> (r: String)
        ensures
            r@ == "Clock"@,
    {
        "Clock".to_owned()
    }

    /// Get the widget description.
    pub fn get_description(&self) -> (r: String)
        ensures
            r@ == "Displays the current time"@,
    {
        "Displays the current time".to_owned()
    }

    /// Get the widget settings.
    pub fn get_settings(&self) -> (r: WidgetSettings)
        ensures
            r@ == self.spec_settings(),
    {
        settings_duplicate(&self.settings)
    }

    /// Replace the widget settings.
    pub fn update_settings(&mut self, settings: WidgetSettings)
        ensures
            final(self).spec_settings() == settings@,
    {
        self.settings = settings;
    }
}

/// Calendar widget: displays a calendar.
#[derive(Debug, Clone)]
pub struct CalendarWidget {
    /// Widget settings.
    settings: WidgetSettings,
}

impl CalendarWidget {
    /// Create a new calendar widget.
    pub fn new(settings: WidgetSettings) -> (r: Self)
        ensures
            r.spec_settings() == settings@,
    {
        CalendarWidget { settings }
    }

    /// The widget settings.
    pub closed spec fn spec_settings(&self) -> Seq<(String, String)> {
        self.settings@
    }

    /// Get the widget type.
    pub fn get_type(&self) -> (r: WidgetType)
        ensures
            r == WidgetType::Calendar,
    {
        WidgetType::Calendar
    }

    /// Get the widget name.
    pub fn get_name(&self) -> (r: String)
        ensures
            r@ == "Calendar"@,
    {
        "Calendar".to_owned()
    }

    /// Get the widget description.
    pub fn get_description(&self) -> (r: String)
        ensures
            r@ == "Displays a calendar"@,
    {
        "Displays a calendar".to_owned()
    }

    /// Get the widget settings.
    pub fn get_settings(&self) -> (r: WidgetSettings)
        ensures
            r@ == self.spec_settings(),
    {
        settings_duplicate(&self.settings)
    }

    /// Replace the widget settings.
    pub fn update_settings(&mut self, settings: WidgetSettings)
        ensures
            final(self).spec_settings() == settings@,
    {
        self.settings = settings;
    }
}

/// Notes widget: keeps editable notes on the desktop.
#[derive(Debug, Clone)]
pub struct NotesWidget {
    /// Widget settings.
    settings: WidgetSettings,
    /// Notes content.
    notes: String,
}

impl NotesWidget {
    /// Create a new notes widget; the notes start as the content entry of
    /// the settings, or empty without one.
    pub fn new(settings: WidgetSettings) -> (r: Self)
        ensures
            r.spec_settings() == settings@,
            r.spec_notes() == (match spec_settings_get(settings@, "content"@) {
                Some(v) => v,
                None => Seq::<char>::empty(),
            }),
    {
        let notes = match settings_get(&settings, "content") {
            Some(v) => v,
            None => String::new(),
        };
        NotesWidget { settings, notes }
    }

    /// The widget settings.
    pub closed spec fn spec_settings(&self) -> Seq<(String, String)> {
        self.settings@
    }

    /// The notes content.
    pub closed spec fn spec_notes(&self) -> Seq<char> {
        self.notes@
    }

    /// Get the widget type.
    pub fn get_type(&self) -> (r: WidgetType)
        ensures
            r == WidgetType::Notes,
    {
        WidgetType::Notes
    }

    /// Get the widget name.
    pub fn get_name(&self) -> (r: String)
        ensures
            r@ == "Notes"@,
    {
        "Notes".to_owned()
    }

    /// Get the widget description.
    pub fn get_description(&self) -> (r: String)
        ensures
            r@ == "Displays notes on your desktop"@,
    {
        "Displays notes on your desktop".to_owned()
    }

    /// Get the widget settings, with the current notes as the content
    /// entry: it is placed first, so a lookup sees it before any stored
    /// content entry.
    pub fn get_settings(&self) -> (r: WidgetSettings)
        ensures
            r@.len() == self.spec_settings().len() + 1,
            r@[0].0@ == "content"@,
            r@[0].1@ == self.spec_notes(),
            r@.skip(1) == self.spec_settings(),
    {
        let mut r: WidgetSettings = Vec::new();
        r.push(("content".to_owned(), self.notes.clone()));
        let rest = settings_duplicate(&self.settings);
        let n = rest.len();
        let mut i: usize = 0;
        while i < n
            invariant
                i <= n,
                n == self.settings@.len(),
                rest@ == self.settings@,
                r@.len() == i + 1,
                r@[0].0@ == "content"@,
                r@[0].1@ == self.notes@,
                r@.skip(1) == self.settings@.take(i as int),
            decreases n - i,
        {
            r.push((rest[i].0.clone(), rest[i].1.clone()));
            proof {
                assert(r@.skip(1) =~= self.settings@.take(i + 1));
            }
            i = i + 1;
        }
        proof {
            assert(self.settings@.take(n as int) =~= self.settings@);
        }
        r
    }

    /// Replace the widget settings; a content entry among them also
    /// replaces the notes.
    pub fn update_settings(&mut self, settings: WidgetSettings)
        ensures
            final(self).spec_settings() == settings@,
            final(self).spec_notes() == (match spec_settings_get(settings@, "content"@) {
                Some(v) => v,
                None => old(self).spec_notes(),
            }),
    {
        match settings_get(&settings, "content") {
            Some(v) => {
                self.notes = v;
            },
            None => {},
        }
        self.settings = settings;
    }
}

/// Whether two named configuration entries agree: same name, same
/// configuration contents.
pub open spec fn spec_named_config_eq(a: (String, WidgetConfig), b: (String, WidgetConfig)) -> bool {
    a.0@ == b.0@ && spec_config_eq(a.1, b.1)
}

/// Whether two widget configurations agree field for field (settings
/// compared by contents).
pub open spec fn spec_config_eq(a: WidgetConfig, b: WidgetConfig) -> bool {
    &&& a.widget_type == b.widget_type
    &&& a.position == b.position
    &&& a.size == b.size
    &&& a.settings@ == b.settings@
    &&& a.enabled == b.enabled
    &&& a.background_color == b.background_color
    &&& a.opacity == b.opacity
}

impl WidgetConfig {
    /// An exact copy, field for field.
    pub fn duplicate(&self) -> (r: Self)
        ensures
            spec_config_eq(r, *self),
    {
        WidgetConfig {
            widget_type: match &self.widget_type {
                WidgetType::Clock => WidgetType::Clock,
                WidgetType::Weather => WidgetType::Weather,
                WidgetType::SystemMonitor => WidgetType::SystemMonitor,
                WidgetType::Calendar => WidgetType::Calendar,
                WidgetType::Notes => WidgetType::Notes,
                WidgetType::Custom(s) => WidgetType::Custom(s.clone()),
            },
            position: self.position,
            size: self.size,
            settings: settings_duplicate(&self.settings),
            enabled: self.enabled,
            background_color: self.background_color,
            opacity: self.opacity,
        }
    }

    /// Whether a widget is built from this configuration: it is enabled
    /// and its type is one of the built-in widgets (custom widgets are not
    /// implemented).
    pub open spec fn spec_buildable(&self) -> bool {
        self.enabled && !(self.widget_type is Custom)
    }
}

/// Widget manager state: the named widget configurations and the
/// update-loop flag. The loop itself, and the drawing, are run by the
/// surrounding program.
pub struct WidgetManager {
    /// Widget configurations, each under its name.
    configs: Vec<(String, WidgetConfig)>,
    /// Whether the update loop should be running.
    is_running: bool,
}

/// Whether a configuration list carries the given name.
pub open spec fn spec_has_config(s: Seq<(String, WidgetConfig)>, id: Seq<char>) -> bool {
    exists|i: int| 0 <= i < s.len() && s[i].0@ == id
}

impl WidgetManager {
    /// The configurations, in order.
    pub closed spec fn spec_configs(&self) -> Seq<(String, WidgetConfig)> {
        self.configs@
    }

    /// Whether the update loop should be running.
    pub closed spec fn spec_is_running(&self) -> bool {
        self.is_running
    }

    /// Create a new widget manager with no widgets and the loop stopped.
    pub fn new() -> (r: Self)
        ensures
            r.spec_configs().len() == 0,
            !r.spec_is_running(),
    {
        WidgetManager { configs: Vec::new(), is_running: false }
    }

    /// Find the position of a named configuration.
    fn find_config(&self, id: &str) -> (r: Option<usize>)
        ensures
            match r {
                Some(i) => i < self.configs@.len() && self.configs@[i as int].0@ == id@,
                None => !spec_has_config(self.configs@, id@),
            },
    {
        let n = self.configs.len();
        let mut i: usize = 0;
        while i < n
            invariant
                i <= n,
                n == self.configs@.len(),
                forall|j: int| 0 <= j < i ==> self.configs@[j].0@ != id@,
            decreases n - i,
        {
            if crate::text::str_eq(self.configs[i].0.as_str(), id) {
                return Some(i);
            }
            i = i + 1;
        }
        None
    }

    /// Add a widget configuration under a name, replacing any earlier one
    /// under the same name.
    pub fn add_widget(&mut self, id: String, config: WidgetConfig) -> (r: Result<(), AppError>)
        ensures
            r is Ok,
            final(self).spec_is_running() == old(self).spec_is_running(),
            !spec_has_config(old(self).spec_configs(), id@) ==> final(self).spec_configs() == old(
                self,
            ).spec_configs().push((id, config)),
            spec_has_config(old(self).spec_configs(), id@) ==> exists|i: int|
                0 <= i < old(self).spec_configs().len() && old(self).spec_configs()[i].0@ == id@
                    && final(self).spec_configs() == old(self).spec_configs().update(
                    i,
                    (id, config),
                ),
    {
        match self.find_config(id.as_str()) {
            Some(i) => {
                let ghost gi = i as int;
                self.configs.remove(i);
                self.configs.insert(i, (id, config));
                proof {
                    assert(self.configs@ =~= old(self).configs@.update(
                        gi,
                        self.configs@[gi],
                    ));
                }
                Ok(())
            },
            None => {
                self.configs.push((id, config));
                Ok(())
            },
        }
    }

    /// Replace a widget configuration: the same operation as adding under
    /// the name.
    pub fn update_widget(&mut self, id: String, config: WidgetConfig) -> (r: Result<
        (),
        AppError,
    >)
        ensures
            r is Ok,
            final(self).spec_is_running() == old(self).spec_is_running(),
            !spec_has_config(old(self).spec_configs(), id@) ==> final(self).spec_configs() == old(
                self,
            ).spec_configs().push((id, config)),
            spec_has_config(old(self).spec_configs(), id@) ==> exists|i: int|
                0 <= i < old(self).spec_configs().len() && old(self).spec_configs()[i].0@ == id@
                    && final(self).spec_configs() == old(self).spec_configs().update(
                    i,
                    (id, config),
                ),
    {
        self.add_widget(id, config)
    }

    /// Remove the widget configuration under a name; removing an unknown
    /// name changes nothing.
    pub fn remove_widget(&mut self, id: &str) -> (r: Result<(), AppError>)
        ensures
            r is Ok,
            final(self).spec_is_running() == old(self).spec_is_running(),
            !spec_has_config(old(self).spec_configs(), id@) ==> final(self).spec_configs() == old(
                self,
            ).spec_configs(),
            spec_has_config(old(self).spec_configs(), id@) ==> exists|i: int|
                0 <= i < old(self).spec_configs().len() && old(self).spec_configs()[i].0@ == id@
                    && final(self).spec_configs() == old(self).spec_configs().remove(i),
    {
        match self.find_config(id) {
            Some(i) => {
                self.configs.remove(i);
                Ok(())
            },
            None => Ok(()),
        }
    }

    /// The configuration under a name, if any.
    pub fn get_widget_config(&self, id: &str) -> (r: Option<WidgetConfig>)
        ensures
            match r {
                Some(c) => exists|i: int|
                    0 <= i < self.spec_configs().len() && self.spec_configs()[i].0@ == id@
                        && spec_config_eq(c, self.spec_configs()[i].1),
                None => !spec_has_config(self.spec_configs(), id@),
            },
    {
        match self.find_config(id) {
            Some(i) => {
                let c = self.configs[i].1.duplicate();
                proof {
                    assert(self.spec_configs()[i as int].0@ == id@);
                    assert(spec_config_eq(c, self.spec_configs()[i as int].1));
                }
                Some(c)
            },
            None => None,
        }
    }

    /// All widget configurations, each under its name.
    pub fn get_widget_configs(&self) -> (r: Vec<(String, WidgetConfig)>)
        ensures
            r@.len() == self.spec_configs().len(),
            forall|k: int|
                0 <= k < r@.len() ==> #[trigger] spec_named_config_eq(
                    r@[k],
                    self.spec_configs()[k],
                ),
    {
        let n = self.configs.len();
        let mut r: Vec<(String, WidgetConfig)> = Vec::new();
        let mut i: usize = 0;
        while i < n
            invariant
                i <= n,
                n == self.configs@.len(),
                r@.len() == i,
                forall|k: int|
                    0 <= k < i ==> #[trigger] spec_named_config_eq(r@[k], self.configs@[k]),
            decreases n - i,
        {
            let ghost pre = r@;
            let key = self.configs[i].0.clone();
            let val = self.configs[i].1.duplicate();
            r.push((key, val));
            proof {
                assert forall|k: int|
                    0 <= k < i + 1 implies #[trigger] spec_named_config_eq(
                    r@[k],
                    self.configs@[k],
                ) by {
                    if k < i {
                        assert(r@[k] == pre[k]);
                        assert(spec_named_config_eq(pre[k], self.configs@[k]));
                    } else {
                        assert(r@[k] == r@.last());
                        assert(spec_config_eq(r@[k].1, self.configs@[k].1));
                        assert(r@[k].0@ == self.configs@[k].0@);
                    }
                }
            }
            i = i + 1;
        }
        r
    }

    /// Decide which configurations yield widgets: the enabled ones whose
    /// type is built in, in list order.
    pub fn widgets_to_create(&self) -> (r: Vec<usize>)
        ensures
            forall|k: int| 0 <= k < r@.len() ==> (r@[k] as int) < self.spec_configs().len(),
            forall|k1: int, k2: int| 0 <= k1 < k2 < r@.len() ==> r@[k1] < r@[k2],
            forall|j: int|
                0 <= j < self.spec_configs().len() ==> (r@.contains(j as usize) <==> (
                #[trigger] self.spec_configs()[j]).1.spec_buildable()),
    {
        let n = self.configs.len();
        let mut r: Vec<usize> = Vec::new();
        let mut j: usize = 0;
        while j < n
            invariant
                j <= n,
                n == self.configs@.len(),
                forall|k: int| 0 <= k < r@.len() ==> (r@[k] as int) < j,
                forall|k1: int, k2: int| 0 <= k1 < k2 < r@.len() ==> r@[k1] < r@[k2],
                forall|i: int|
                    0 <= i < j ==> (r@.contains(i as usize) <==> (
                    #[trigger] self.configs@[i]).1.spec_buildable()),
            decreases n - j,
        {
            let buildable = self.configs[j].1.enabled && match &self.configs[j].1.widget_type {
                WidgetType::Custom(_) => false,
                _ => true,
            };
            let ghost pre = r@;
            if buildable {
                r.push(j);
            }
            proof {
                assert forall|i: int|
                    0 <= i < j + 1 implies (r@.contains(i as usize) <==> (
                #[trigger] self.configs@[i]).1.spec_buildable()) by {
                    if buildable {
                        assert(r@ == pre.push(j as usize));
                        if i < j {
                            assert(r@.contains(i as usize) <==> pre.contains(i as usize)) by {
                                if pre.contains(i as usize) {
                                    let w = choose|w: int|
                                        0 <= w < pre.len() && pre[w] == i as usize;
                                    assert(r@[w] == i as usize);
                                } else if r@.contains(i as usize) {
                                    let w = choose|w: int|
                                        0 <= w < r@.len() && r@[w] == i as usize;
                                    assert(w < pre.len());
                                }
                            }
                        } else {
                            assert(r@[r@.len() - 1] == j as usize);
                        }
                    } else {
                        if i == j && r@.contains(i as usize) {
                            let w = choose|w: int| 0 <= w < r@.len() && r@[w] == i as usize;
                            assert((r@[w] as int) < j);
                        }
                    }
                }
            }
            j = j + 1;
        }
        r
    }

    /// Start the widget manager: the update loop should run.
    pub fn start(&mut self) -> (r: Result<(), AppError>)
        ensures
            final(self).spec_is_running(),
            final(self).spec_configs() == old(self).spec_configs(),
            r is Ok,
    {
        self.is_running = true;
        Ok(())
    }

    /// Stop the widget manager: the update loop should exit and be joined.
    pub fn stop(&mut self) -> (r: Result<(), AppError>)
        ensures
            !final(self).spec_is_running(),
            final(self).spec_configs() == old(self).spec_configs(),
            r is Ok,
    {
        self.is_running = false;
        Ok(())
    }

    /// The default widgets: a clock and a weather widget at the top
    /// right, and a notes widget with a welcome text at the bottom right,
    /// all enabled.
    pub fn default_widget_configs() -> (r: Vec<(String, WidgetConfig)>)
        ensures
            r@.len() == 3,
            r@[0].0@ == "clock"@,
            r@[0].1.widget_type == WidgetType::Clock,
            r@[0].1.position == WidgetPosition::TopRight,
            r@[0].1.size == WidgetSize::Medium,
            r@[0].1.settings@.len() == 0,
            r@[0].1.enabled,
            r@[1].0@ == "weather"@,
            r@[1].1.widget_type == WidgetType::Weather,
            r@[1].1.position == WidgetPosition::TopRight,
            r@[1].1.size == WidgetSize::Medium,
            r@[1].1.settings@.len() == 0,
            r@[1].1.enabled,
            r@[2].0@ == "notes"@,
            r@[2].1.widget_type == WidgetType::Notes,
            r@[2].1.position == WidgetPosition::BottomRight,
            r@[2].1.size == WidgetSize::Medium,
            r@[2].1.enabled,
            spec_settings_get(r@[2].1.settings@, "font_size"@) == Some("14"@),
            spec_settings_get(r@[2].1.settings@, "bg_color"@) == Some("#f0f0f0"@),
            spec_settings_get(r@[2].1.settings@, "content"@) is Some,
    {
        let mut r: Vec<(String, WidgetConfig)> = Vec::new();
        r.push(
            (
                "clock".to_owned(),
                WidgetConfig {
                    widget_type: WidgetType::Clock,
                    position: WidgetPosition::TopRight,
                    size: WidgetSize::Medium,
                    settings: Vec::new(),
                    enabled: true,
                    background_color: None,
                    opacity: None,
                },
            ),
        );
        r.push(
            (
                "weather".to_owned(),
                WidgetConfig {
                    widget_type: WidgetType::Weather,
                    position: WidgetPosition::TopRight,
                    size: WidgetSize::Medium,
                    settings: Vec::new(),
                    enabled: true,
                    background_color: None,
                    opacity: None,
                },
            ),
        );
        let mut notes_settings: WidgetSettings = Vec::new();
        notes_settings.push(
            (
                "content".to_owned(),
                "Welcome to Aether-Desk!\n\nThis is a notes widget. You can edit this text to keep notes on your desktop.".to_owned(),
            ),
        );
        notes_settings.push(("font_size".to_owned(), "14".to_owned()));
        notes_settings.push(("bg_color".to_owned(), "#f0f0f0".to_owned()));
        proof {
            reveal_strlit("content");
            reveal_strlit("font_size");
            reveal_strlit("bg_color");
            assert(notes_settings@.len() == 3);
            assert(notes_settings@[0].0@ == "content"@);
            assert(notes_settings@[1].0@ == "font_size"@);
            assert(notes_settings@[2].0@ == "bg_color"@);
            assert("content"@ != "font_size"@);
            assert("bg_color"@ != "font_size"@);
            assert(spec_settings_get_from(notes_settings@, "font_size"@, 3) is None);
            assert(spec_settings_get_from(notes_settings@, "font_size"@, 2) is None);
            assert(spec_settings_get_from(notes_settings@, "font_size"@, 1) == Some("14"@));
            assert(spec_settings_get(notes_settings@, "font_size"@) == Some("14"@));
            assert(spec_settings_get_from(notes_settings@, "bg_color"@, 2) == Some("#f0f0f0"@));
            assert(spec_settings_get_from(notes_settings@, "bg_color"@, 1) == Some("#f0f0f0"@));
            assert(spec_settings_get(notes_settings@, "bg_color"@) == Some("#f0f0f0"@));
            assert(spec_settings_get(notes_settings@, "content"@) is Some);
        }
        r.push(
            (
                "notes".to_owned(),
                WidgetConfig {
                    widget_type: WidgetType::Notes,
                    position: WidgetPosition::BottomRight,
                    size: WidgetSize::Medium,
                    settings: notes_settings,
                    enabled: true,
                    background_color: None,
                    opacity: None,
                },
            ),
        );
        r
    }
}

/// The numeric value of one hexadecimal digit.
pub open spec fn spec_hex_digit(c: char) -> Option<int> {
    if '0' <= c && c <= '9' {
        Some(c as int - '0' as int)
    } else if 'a' <= c && c <= 'f' {
        Some(c as int - 'a' as int + 10)
    } else if 'A' <= c && c <= 'F' {
        Some(c as int - 'A' as int + 10)
    } else {
        None
    }
}

/// The numeric value of one hexadecimal digit.
fn hex_digit(c: char) -> (r: Option<u8>)
    ensures
        match r {
            Some(v) => spec_hex_digit(c) == Some(v as int) && v < 16,
            None => spec_hex_digit(c) is None,
        },
{
    if '0' <= c && c <= '9' {
        Some((c as u32 - '0' as u32) as u8)
    } else if 'a' <= c && c <= 'f' {
        Some((c as u32 - 'a' as u32 + 10) as u8)
    } else if 'A' <= c && c <= 'F' {
        Some((c as u32 - 'A' as u32 + 10) as u8)
    } else {
        None
    }
}

/// The value of one color channel: two hexadecimal digits.
pub open spec fn spec_hex_byte(hi: char, lo: char) -> Option<int> {
    match (spec_hex_digit(hi), spec_hex_digit(lo)) {
        (Some(h), Some(l)) => Some(16 * h + l),
        _ => None,
    }
}

/// The color named by a hex string: exactly a number sign and six
/// hexadecimal digits, two per channel.
pub open spec fn spec_hex_color(s: Seq<char>) -> Option<(u8, u8, u8)> {
    if s.len() == 7 && s[0] == '#' {
        match (
            spec_hex_byte(s[1], s[2]),
            spec_hex_byte(s[3], s[4]),
            spec_hex_byte(s[5], s[6]),
        ) {
            (Some(r), Some(g), Some(b)) => Some((r as u8, g as u8, b as u8)),
            _ => None,
        }
    } else {
        None
    }
}

/// Parse a `#RRGGBB` hex color into its red, green and blue channels.
pub fn parse_hex_color(hex: &str) -> (r: Option<(u8, u8, u8)>)
    ensures
        r == spec_hex_color(hex@),
{
    let n = hex.unicode_len();
    if n != 7 {
        return None;
    }
    if hex.get_char(0) != '#' {
        return None;
    }
    let rr = match (hex_digit(hex.get_char(1)), hex_digit(hex.get_char(2))) {
        (Some(h), Some(l)) => 16 * h + l,
        _ => {
            return None;
        },
    };
    let gg = match (hex_digit(hex.get_char(3)), hex_digit(hex.get_char(4))) {
        (Some(h), Some(l)) => 16 * h + l,
        _ => {
            return None;
        },
    };
    let bb = match (hex_digit(hex.get_char(5)), hex_digit(hex.get_char(6))) {
        (Some(h), Some(l)) => 16 * h + l,
        _ => {
            return None;
        },
    };
    Some((rr, gg, bb))
}

} // verus!
