//! Platform-specific wallpaper strategies.
//!
//! Each manager realizes a wallpaper request through a prioritized fallback
//! chain of external tools: the chain order is a documented per-platform
//! contract, stated here as exact command sequences. Running the commands
//! blocks on process I/O and is the surrounding program's job; the chain
//! contents, the success rule (first tool that exits zero wins) and the
//! error carrying the last failure's diagnostic are decided and proved
//! here.

use vstd::prelude::*;
use vstd::string::*;

use crate::error::AppError;
use crate::text::{
    contains_ignore_case, contains_substr, find_from, lemma_first_from_unique,
    spec_contains, spec_contains_from, spec_contains_ignore_case, spec_first_from,
    spec_matches_at,
};

verus! {

/// One external tool invocation: a program and its argument list.
#[derive(Debug, Clone)]
pub struct ToolCommand {
    /// The program to run.
    pub program: String,
    /// The arguments, in order.
    pub args: Vec<String>,
}

impl ToolCommand {
    /// The argument list as sequences of characters.
    pub open spec fn args_view(&self) -> Seq<Seq<char>> {
        self.args@.map_values(|s: String| s@)
    }
}

/// What running one external tool produced.
#[derive(Debug, Clone)]
pub struct CommandOutcome {
    /// Whether the program could be spawned at all.
    pub spawned: bool,
    /// Whether it exited with status zero.
    pub exit_ok: bool,
    /// Its standard output, as text.
    pub stdout: String,
    /// Its standard error (or the spawn failure's diagnostic), as text.
    pub stderr: String,
}

/// Whether an outcome counts as success: the tool ran and exited zero.
pub open spec fn spec_outcome_ok(o: CommandOutcome) -> bool {
    o.spawned && o.exit_ok
}

/// The index of the first successful outcome of a fallback chain, if any.
pub fn chain_first_success(outcomes: &Vec<CommandOutcome>) -> (r: Option<usize>)
    ensures
        match r {
            Some(i) => i < outcomes@.len() && spec_outcome_ok(outcomes@[i as int]) && (forall|
                j: int,
            |
                0 <= j < i ==> !spec_outcome_ok(outcomes@[j])),
            None => forall|j: int| 0 <= j < outcomes@.len() ==> !spec_outcome_ok(outcomes@[j]),
        },
{
    let n = outcomes.len();
    let mut i: usize = 0;
    while i < n
        invariant
            i <= n,
            n == outcomes@.len(),
            forall|j: int| 0 <= j < i ==> !spec_outcome_ok(outcomes@[j]),
        decreases n - i,
    {
        if outcomes[i].spawned && outcomes[i].exit_ok {
            return Some(i);
        }
        i = i + 1;
    }
    None
}

/// Detect the desktop environment from the standard environment variables,
/// in their documented precedence: the current-desktop variable, then the
/// session variable, then the GNOME and KDE session markers, then a
/// generic default.
pub open spec fn spec_detect_desktop_environment(
    xdg_current_desktop: Option<String>,
    desktop_session: Option<String>,
    gnome_session: bool,
    kde_session: bool,
) -> Seq<char> {
    match xdg_current_desktop {
        Some(v) => v@,
        None => match desktop_session {
            Some(v) => v@,
            None => if gnome_session {
                "GNOME"@
            } else if kde_session {
                "KDE"@
            } else {
                "generic"@
            },
        },
    }
}

/// Detect the desktop environment from the values of the standard
/// environment variables.
pub fn detect_desktop_environment(
    xdg_current_desktop: Option<String>,
    desktop_session: Option<String>,
    gnome_session: bool,
    kde_session: bool,
) -> (r: String)
    ensures
        r@ == spec_detect_desktop_environment(
            xdg_current_desktop,
            desktop_session,
            gnome_session,
            kde_session,
        ),
{
    match xdg_current_desktop {
        Some(v) => v,
        None => match desktop_session {
            Some(v) => v,
            None => if gnome_session {
                "GNOME".to_owned()
            } else if kde_session {
                "KDE".to_owned()
            } else {
                "generic".to_owned()
            },
        },
    }
}

/// Whether a current-desktop value names the Hyprland compositor,
/// comparing up to ASCII case.
pub open spec fn spec_is_hyprland(xdg_current_desktop: Option<Seq<char>>) -> bool {
    match xdg_current_desktop {
        Some(v) => spec_contains_ignore_case(v, "hyprland"@),
        None => false,
    }
}

/// Whether the current-desktop variable names the Hyprland compositor.
pub fn is_hyprland(xdg_current_desktop: Option<&str>) -> (r: bool)
    ensures
        r == spec_is_hyprland(
            match xdg_current_desktop {
                Some(v) => Some(v@),
                None => None,
            },
        ),
{
    match xdg_current_desktop {
        Some(v) => contains_ignore_case(v, "hyprland"),
        None => false,
    }
}

/// Linux wallpaper manager: desktop-environment aware fallback chains over
/// the common wallpaper tools.
#[derive(Debug, Clone)]
pub struct LinuxWallpaperManager {
    /// Current wallpaper path.
    current_wallpaper: Option<String>,
    /// Detected desktop environment.
    desktop_env: String,
}

impl LinuxWallpaperManager {
    /// The current wallpaper path.
    pub closed spec fn spec_current(&self) -> Option<Seq<char>> {
        match self.current_wallpaper {
            Some(ref p) => Some(p@),
            None => None,
        }
    }

    /// The detected desktop environment.
    pub closed spec fn spec_desktop_env(&self) -> Seq<char> {
        self.desktop_env@
    }

    /// Create a new Linux wallpaper manager for a detected desktop
    /// environment.
    pub fn new(desktop_env: String) -> (r: Self)
        ensures
            r.spec_desktop_env() == desktop_env@,
            r.spec_current() is None,
    {
        LinuxWallpaperManager { current_wallpaper: None, desktop_env }
    }

    /// Initialize the Linux wallpaper manager: nothing to prepare.
    pub fn init() -> (r: Result<(), AppError>)
        ensures
            r is Ok,
    {
        Ok(())
    }

    /// The static-wallpaper fallback chain: a GNOME settings write, then
    /// the generic X11 setter, then the desktop-manager restore tool.
    pub open spec fn spec_static_chain(path: Seq<char>) -> Seq<(Seq<char>, Seq<Seq<char>>)> {
        seq![
            (
                "gsettings"@,
                seq![
                    "set"@,
                    "org.gnome.desktop.background"@,
                    "picture-uri"@,
                    "file://"@ + path,
                ],
            ),
            ("feh"@, seq!["--bg-fill"@, path]),
            ("nitrogen"@, seq!["--set-zoom-fill"@, path]),
        ]
    }

    /// Build the static-wallpaper fallback chain for a path.
    pub fn static_wallpaper_commands(&self, path: &str) -> (r: Vec<ToolCommand>)
        ensures
            r@.len() == Self::spec_static_chain(path@).len(),
            forall|i: int|
                0 <= i < r@.len() ==> r@[i].program@ == Self::spec_static_chain(path@)[i].0
                    && (#[trigger] r@[i].args_view()) == Self::spec_static_chain(path@)[i].1,
    {
        let mut r: Vec<ToolCommand> = Vec::new();
        let mut gargs: Vec<String> = Vec::new();
        gargs.push("set".to_owned());
        gargs.push("org.gnome.desktop.background".to_owned());
        gargs.push("picture-uri".to_owned());
        gargs.push("file://".to_owned().concat(path));
        let g = ToolCommand { program: "gsettings".to_owned(), args: gargs };
        let mut fargs: Vec<String> = Vec::new();
        fargs.push("--bg-fill".to_owned());
        fargs.push(path.to_owned());
        let f = ToolCommand { program: "feh".to_owned(), args: fargs };
        let mut nargs: Vec<String> = Vec::new();
        nargs.push("--set-zoom-fill".to_owned());
        nargs.push(path.to_owned());
        let nit = ToolCommand { program: "nitrogen".to_owned(), args: nargs };
        proof {
            assert(g.args_view() =~= Self::spec_static_chain(path@)[0].1);
            assert(f.args_view() =~= Self::spec_static_chain(path@)[1].1);
            assert(nit.args_view() =~= Self::spec_static_chain(path@)[2].1);
        }
        r.push(g);
        r.push(f);
        r.push(nit);
        r
    }

    /// Interpret a static-wallpaper chain run: the first tool that exited
    /// zero wins and the path becomes current; with no success the chain is
    /// exhausted, nothing changes, and the error carries the last tool's
    /// diagnostic.
    pub fn set_static_result(&mut self, path: &str, outcomes: &Vec<CommandOutcome>) -> (r: Result<
        (),
        AppError,
    >)
        requires
            outcomes@.len() > 0,
        ensures
            final(self).spec_desktop_env() == old(self).spec_desktop_env(),
            r is Ok <==> (exists|j: int|
                0 <= j < outcomes@.len() && spec_outcome_ok(#[trigger] outcomes@[j])),
            r is Ok ==> final(self).spec_current() == Some(path@),
            r is Err ==> final(self).spec_current() == old(self).spec_current() && (r matches Err(
                AppError::PlatformError(m),
            ) && m@ == outcomes@[outcomes@.len() - 1].stderr@),
    {
        match chain_first_success(outcomes) {
            Some(_) => {
                self.current_wallpaper = Some(path.to_owned());
                Ok(())
            },
            None => {
                let last = outcomes.len() - 1;
                Err(AppError::PlatformError(outcomes[last].stderr.clone()))
            },
        }
    }

    /// The clear-wallpaper fallback chain: empty the GNOME picture key,
    /// then the generic X11 setter, then the desktop-manager restore tool.
    pub open spec fn spec_clear_chain() -> Seq<(Seq<char>, Seq<Seq<char>>)> {
        seq![
            (
                "gsettings"@,
                seq!["set"@, "org.gnome.desktop.background"@, "picture-uri"@, ""@],
            ),
            ("feh"@, seq!["--bg-fill"@, "--no-fehbg"@]),
            ("nitrogen"@, seq!["--restore"@]),
        ]
    }

    /// Build the clear-wallpaper fallback chain.
    pub fn clear_wallpaper_commands(&self) -> (r: Vec<ToolCommand>)
        ensures
            r@.len() == Self::spec_clear_chain().len(),
            forall|i: int|
                0 <= i < r@.len() ==> r@[i].program@ == Self::spec_clear_chain()[i].0 && (
                #[trigger] r@[i].args_view()) == Self::spec_clear_chain()[i].1,
    {
        let mut r: Vec<ToolCommand> = Vec::new();
        let mut gargs: Vec<String> = Vec::new();
        gargs.push("set".to_owned());
        gargs.push("org.gnome.desktop.background".to_owned());
        gargs.push("picture-uri".to_owned());
        gargs.push("".to_owned());
        let g = ToolCommand { program: "gsettings".to_owned(), args: gargs };
        let mut fargs: Vec<String> = Vec::new();
        fargs.push("--bg-fill".to_owned());
        fargs.push("--no-fehbg".to_owned());
        let f = ToolCommand { program: "feh".to_owned(), args: fargs };
        let mut nargs: Vec<String> = Vec::new();
        nargs.push("--restore".to_owned());
        let nit = ToolCommand { program: "nitrogen".to_owned(), args: nargs };
        proof {
            assert(g.args_view() =~= Self::spec_clear_chain()[0].1);
            assert(f.args_view() =~= Self::spec_clear_chain()[1].1);
            assert(nit.args_view() =~= Self::spec_clear_chain()[2].1);
        }
        r.push(g);
        r.push(f);
        r.push(nit);
        r
    }

    /// Interpret a clear-wallpaper chain run: on the first success the
    /// current path is cleared; with no success nothing changes and the
    /// error carries the last tool's diagnostic.
    pub fn clear_result(&mut self, outcomes: &Vec<CommandOutcome>) -> (r: Result<(), AppError>)
        requires
            outcomes@.len() > 0,
        ensures
            final(self).spec_desktop_env() == old(self).spec_desktop_env(),
            r is Ok <==> (exists|j: int|
                0 <= j < outcomes@.len() && spec_outcome_ok(#[trigger] outcomes@[j])),
            r is Ok ==> final(self).spec_current() is None,
            r is Err ==> final(self).spec_current() == old(self).spec_current() && (r matches Err(
                AppError::PlatformError(m),
            ) && m@ == outcomes@[outcomes@.len() - 1].stderr@),
    {
        match chain_first_success(outcomes) {
            Some(_) => {
                self.current_wallpaper = None;
                Ok(())
            },
            None => {
                let last = outcomes.len() - 1;
                Err(AppError::PlatformError(outcomes[last].stderr.clone()))
            },
        }
    }

    /// The video-wallpaper invocation: the media player in wallpaper mode,
    /// looping, without audio.
    pub open spec fn spec_video_args(path: Seq<char>) -> Seq<Seq<char>> {
        seq!["--video-wallpaper"@, "--no-audio"@, "--loop"@, path]
    }

    /// Build the video-wallpaper invocation for a path.
    pub fn video_wallpaper_command(&self, path: &str) -> (r: ToolCommand)
        ensures
            r.program@ == "vlc"@,
            r.args_view() == Self::spec_video_args(path@),
    {
        let mut args: Vec<String> = Vec::new();
        args.push("--video-wallpaper".to_owned());
        args.push("--no-audio".to_owned());
        args.push("--loop".to_owned());
        args.push(path.to_owned());
        let r = ToolCommand { program: "vlc".to_owned(), args };
        proof {
            assert(r.args_view() =~= Self::spec_video_args(path@));
        }
        r
    }

    /// The web-wallpaper invocation: a browser window on the URL.
    pub fn web_wallpaper_command(&self, url: &str) -> (r: ToolCommand)
        ensures
            r.program@ == "firefox"@,
            r.args_view() == seq!["--new-window"@, url@],
    {
        let mut args: Vec<String> = Vec::new();
        args.push("--new-window".to_owned());
        args.push(url.to_owned());
        let r = ToolCommand { program: "firefox".to_owned(), args };
        proof {
            assert(r.args_view() =~= seq!["--new-window"@, url@]);
        }
        r
    }

    /// The shader-wallpaper invocation: the shader viewer on the asset.
    pub fn shader_wallpaper_command(&self, path: &str) -> (r: ToolCommand)
        ensures
            r.program@ == "shadertoy"@,
            r.args_view() == seq![path@],
    {
        let mut args: Vec<String> = Vec::new();
        args.push(path.to_owned());
        let r = ToolCommand { program: "shadertoy".to_owned(), args };
        proof {
            assert(r.args_view() =~= seq![path@]);
        }
        r
    }

    /// The audio-wallpaper invocation: the shader viewer with audio
    /// visualization on the asset.
    pub fn audio_wallpaper_command(&self, path: &str) -> (r: ToolCommand)
        ensures
            r.program@ == "shadertoy"@,
            r.args_view() == seq!["--audio"@, path@],
    {
        let mut args: Vec<String> = Vec::new();
        args.push("--audio".to_owned());
        args.push(path.to_owned());
        let r = ToolCommand { program: "shadertoy".to_owned(), args };
        proof {
            assert(r.args_view() =~= seq!["--audio"@, path@]);
        }
        r
    }

    /// The single-tool invocation setting a wallpaper with the generic
    /// X11 setter.
    pub fn set_wallpaper_with_feh(&self, path: &str) -> (r: ToolCommand)
        ensures
            r.program@ == "feh"@,
            r.args_view() == seq!["--bg-fill"@, path@],
    {
        let mut args: Vec<String> = Vec::new();
        args.push("--bg-fill".to_owned());
        args.push(path.to_owned());
        let r = ToolCommand { program: "feh".to_owned(), args };
        proof {
            assert(r.args_view() =~= seq!["--bg-fill"@, path@]);
        }
        r
    }

    /// The single-tool invocation setting a wallpaper through the GNOME
    /// settings key.
    pub fn set_wallpaper_with_gsettings(&self, path: &str) -> (r: ToolCommand)
        ensures
            r.program@ == "gsettings"@,
            r.args_view() == seq![
                "set"@,
                "org.gnome.desktop.background"@,
                "picture-uri"@,
                "file://"@ + path@,
            ],
    {
        let mut args: Vec<String> = Vec::new();
        args.push("set".to_owned());
        args.push("org.gnome.desktop.background".to_owned());
        args.push("picture-uri".to_owned());
        args.push("file://".to_owned().concat(path));
        let r = ToolCommand { program: "gsettings".to_owned(), args };
        proof {
            assert(r.args_view() =~= seq![
                "set"@,
                "org.gnome.desktop.background"@,
                "picture-uri"@,
                "file://"@ + path@,
            ]);
        }
        r
    }

    /// The single-tool invocation setting a wallpaper through the XFCE
    /// configuration tool.
    pub fn set_wallpaper_with_xfconf(&self, path: &str) -> (r: ToolCommand)
        ensures
            r.program@ == "xfconf-query"@,
            r.args_view() == seq![
                "-c"@,
                "xfce4-desktop"@,
                "-p"@,
                "/backdrop/screen0/monitor0/image-path"@,
                "-s"@,
                path@,
            ],
    {
        let mut args: Vec<String> = Vec::new();
        args.push("-c".to_owned());
        args.push("xfce4-desktop".to_owned());
        args.push("-p".to_owned());
        args.push("/backdrop/screen0/monitor0/image-path".to_owned());
        args.push("-s".to_owned());
        args.push(path.to_owned());
        let r = ToolCommand { program: "xfconf-query".to_owned(), args };
        proof {
            assert(r.args_view() =~= seq![
                "-c"@,
                "xfce4-desktop"@,
                "-p"@,
                "/backdrop/screen0/monitor0/image-path"@,
                "-s"@,
                path@,
            ]);
        }
        r
    }

    /// The single-tool invocation setting a wallpaper with the Wayland
    /// wallpaper daemon.
    pub fn set_wallpaper_with_swww(&self, path: &str) -> (r: ToolCommand)
        ensures
            r.program@ == "swww"@,
            r.args_view() == seq!["img"@, path@],
    {
        let mut args: Vec<String> = Vec::new();
        args.push("img".to_owned());
        args.push(path.to_owned());
        let r = ToolCommand { program: "swww".to_owned(), args };
        proof {
            assert(r.args_view() =~= seq!["img"@, path@]);
        }
        r
    }

    /// The current wallpaper path, as last recorded.
    pub fn get_current_wallpaper(&self) -> (r: Option<String>)
        ensures
            match r {
                Some(p) => self.spec_current() == Some(p@),
                None => self.spec_current() is None,
            },
    {
        match &self.current_wallpaper {
            Some(p) => Some(p.clone()),
            None => None,
        }
    }
}

/// The monitor name carried by one line of the monitor listing, if any: a
/// line mentioning a monitor and a parenthesis yields what stands between
/// the first monitor marker and the next space.
pub open spec fn spec_monitor_name(line: Seq<char>) -> Option<Seq<char>> {
    if spec_contains(line, "Monitor"@) && spec_contains(line, "("@) && spec_contains(
        line,
        "Monitor "@,
    ) {
        let start = spec_first_from(line, "Monitor "@, 0) + 8;
        if spec_contains_from(line, " "@, start) {
            Some(line.subrange(start, spec_first_from(line, " "@, start)))
        } else {
            None
        }
    } else {
        None
    }
}

/// The monitor names carried by the lines of a monitor listing, in order.
pub open spec fn spec_monitor_names(lines: Seq<Seq<char>>) -> Seq<Seq<char>>
    decreases lines.len(),
{
    if lines.len() == 0 {
        Seq::empty()
    } else {
        spec_monitor_names(lines.drop_last()) + (match spec_monitor_name(lines.last()) {
            Some(n) => seq![n],
            None => Seq::empty(),
        })
    }
}

/// Extract the monitor name from one line of the monitor listing, if any.
fn parse_monitor_line(line: &str) -> (r: Option<String>)
    ensures
        match r {
            Some(n) => spec_monitor_name(line@) == Some(n@),
            None => spec_monitor_name(line@) is None,
        },
{
    let line_len = line.unicode_len();
    if !(contains_substr(line, "Monitor") && contains_substr(line, "(")) {
        return None;
    }
    let m = match find_from(line, "Monitor ", 0) {
        Some(m) => m,
        None => {
            return None;
        },
    };
    proof {
        reveal_strlit("Monitor ");
        reveal_strlit(" ");
        lemma_first_from_unique(line@, "Monitor "@, 0, m as int);
        assert(m + 8 <= line_len);
    }
    let start = m + 8;
    let e = match find_from(line, " ", start) {
        Some(e) => e,
        None => {
            proof {
                assert forall|at: int| start <= at implies !spec_matches_at(line@, " "@, at) by {}
            }
            return None;
        },
    };
    proof {
        reveal_strlit(" ");
        lemma_first_from_unique(line@, " "@, start as int, e as int);
        assert(e + 1 <= line@.len());
    }
    Some(line.substring_char(start, e).to_owned())
}

/// Extract the monitor names from the lines of a monitor listing.
#[verifier::rlimit(50)]
pub fn parse_monitor_lines(lines: &Vec<String>) -> (r: Vec<String>)
    ensures
        r@.map_values(|s: String| s@) == spec_monitor_names(
            lines@.map_values(|s: String| s@),
        ),
{
    let ghost views = lines@.map_values(|s: String| s@);
    let n = lines.len();
    let mut r: Vec<String> = Vec::new();
    let mut i: usize = 0;
    proof {
        assert(views.take(0) =~= Seq::<Seq<char>>::empty());
        assert(r@.map_values(|s: String| s@) =~= spec_monitor_names(views.take(0)));
    }
    while i < n
        invariant
            i <= n,
            n == lines@.len(),
            views == lines@.map_values(|s: String| s@),
            r@.map_values(|s: String| s@) == spec_monitor_names(views.take(i as int)),
        decreases n - i,
    {
        let ghost pre = r@.map_values(|s: String| s@);
        match parse_monitor_line(lines[i].as_str()) {
            Some(name) => {
                r.push(name);
            },
            None => {},
        }
        proof {
            assert(views.take(i + 1).drop_last() =~= views.take(i as int));
            assert(views.take(i + 1).last() == views[i as int]);
            assert(views[i as int] == lines@[i as int]@);
            match spec_monitor_name(views[i as int]) {
                Some(nm) => {
                    assert(r@.map_values(|s: String| s@) =~= pre + seq![nm]);
                },
                None => {
                    assert(r@.map_values(|s: String| s@) =~= pre);
                    assert(spec_monitor_names(views.take(i + 1)) =~= pre);
                },
            }
        }
        i = i + 1;
    }
    proof {
        assert(views.take(n as int) =~= views);
    }
    r
}

/// The observable signature of a command: its program and its arguments.
pub open spec fn spec_cmd_sig(c: ToolCommand) -> (Seq<char>, Seq<Seq<char>>) {
    (c.program@, c.args_view())
}

/// The per-monitor static-wallpaper invocation on Hyprland: the compositor
/// utility writes the path for one monitor.
pub open spec fn spec_hypr_static_sig(monitor: Seq<char>, path: Seq<char>) -> (
    Seq<char>,
    Seq<Seq<char>>,
) {
    ("hyprctl"@, seq!["hyprpaper"@, "wallpaper"@, monitor + ","@, path])
}

/// Hyprland-specific wallpaper manager, driving the compositor's own
/// wallpaper utility and fullscreen viewers.
#[derive(Debug, Clone)]
pub struct HyprlandWallpaperManager;

impl HyprlandWallpaperManager {
    /// The monitor-listing invocation.
    pub fn monitors_command(&self) -> (r: ToolCommand)
        ensures
            r.program@ == "hyprctl"@,
            r.args_view() == seq!["monitors"@],
    {
        let mut args: Vec<String> = Vec::new();
        args.push("monitors".to_owned());
        let r = ToolCommand { program: "hyprctl".to_owned(), args };
        proof {
            assert(r.args_view() =~= seq!["monitors"@]);
        }
        r
    }

    /// Interpret the monitor-listing run: a listing that exited non-zero
    /// reports its standard error, else its standard output carries the
    /// listing.
    pub fn monitors_result(&self, outcome: &CommandOutcome) -> (r: Result<String, AppError>)
        ensures
            r is Ok <==> spec_outcome_ok(*outcome),
            match r {
                Ok(s) => s@ == outcome.stdout@,
                Err(e) => (e matches AppError::PlatformError(m) && m@
                    == "Failed to get monitors: "@ + outcome.stderr@),
            },
    {
        if outcome.spawned && outcome.exit_ok {
            Ok(outcome.stdout.clone())
        } else {
            Err(
                AppError::PlatformError(
                    "Failed to get monitors: ".to_owned().concat(outcome.stderr.as_str()),
                ),
            )
        }
    }

    /// Build the static-wallpaper invocations: one wallpaper write per
    /// monitor. With no monitors detected the request is rejected.
    pub fn static_wallpaper_commands(&self, monitors: &Vec<String>, path: &str) -> (r: Result<
        Vec<ToolCommand>,
        AppError,
    >)
        ensures
            r is Ok <==> monitors@.len() > 0,
            match r {
                Ok(cmds) => cmds@.len() == monitors@.len() && (forall|i: int|
                    0 <= i < cmds@.len() ==> (#[trigger] spec_cmd_sig(cmds@[i]))
                        == spec_hypr_static_sig(monitors@[i]@, path@)),
                Err(e) => (e matches AppError::Other(m) && m@ == "No monitors detected"@),
            },
    {
        if monitors.len() == 0 {
            return Err(AppError::Other("No monitors detected".to_owned()));
        }
        let n = monitors.len();
        let mut cmds: Vec<ToolCommand> = Vec::new();
        let mut i: usize = 0;
        while i < n
            invariant
                i <= n,
                n == monitors@.len(),
                cmds@.len() == i,
                forall|k: int|
                    0 <= k < i ==> (#[trigger] spec_cmd_sig(cmds@[k])) == spec_hypr_static_sig(
                        monitors@[k]@,
                        path@,
                    ),
            decreases n - i,
        {
            let mut args: Vec<String> = Vec::new();
            args.push("hyprpaper".to_owned());
            args.push("wallpaper".to_owned());
            args.push(monitors[i].clone().concat(","));
            args.push(path.to_owned());
            let c = ToolCommand { program: "hyprctl".to_owned(), args };
            let ghost pre = cmds@;
            cmds.push(c);
            proof {
                assert(cmds@[i as int] == c);
                assert(c.args_view() =~= spec_hypr_static_sig(monitors@[i as int]@, path@).1);
                assert(spec_cmd_sig(c) == spec_hypr_static_sig(monitors@[i as int]@, path@));
                assert forall|k: int|
                    0 <= k < i + 1 implies (#[trigger] spec_cmd_sig(cmds@[k]))
                        == spec_hypr_static_sig(monitors@[k]@, path@) by {
                    if k < i {
                        assert(cmds@[k] == pre[k]);
                        assert(spec_cmd_sig(pre[k]) == spec_hypr_static_sig(
                            monitors@[k]@,
                            path@,
                        ));
                    } else {
                        assert(cmds@[k] == c);
                    }
                }
            }
            i = i + 1;
        }
        Ok(cmds)
    }

    /// Interpret a per-monitor wallpaper write: the first write that fails
    /// fails the whole request with its monitor's name and diagnostic.
    pub fn static_wallpaper_result(&self, monitors: &Vec<String>, outcomes: &Vec<CommandOutcome>)
        -> (r: Result<(), AppError>)
        requires
            outcomes@.len() <= monitors@.len(),
        ensures
            r is Ok <==> (forall|j: int|
                0 <= j < outcomes@.len() ==> spec_outcome_ok(#[trigger] outcomes@[j])),
            r is Err ==> (r matches Err(AppError::PlatformError(m)) && exists|j: int|
                0 <= j < outcomes@.len() && !spec_outcome_ok(#[trigger] outcomes@[j]) && (forall|
                    k: int,
                |
                    0 <= k < j ==> spec_outcome_ok(#[trigger] outcomes@[k])) && m@
                    == "Failed to set wallpaper for monitor "@ + monitors@[j]@ + ": "@
                    + outcomes@[j].stderr@),
    {
        let n = outcomes.len();
        let mut i: usize = 0;
        while i < n
            invariant
                i <= n,
                n == outcomes@.len(),
                outcomes@.len() <= monitors@.len(),
                forall|k: int| 0 <= k < i ==> spec_outcome_ok(#[trigger] outcomes@[k]),
            decreases n - i,
        {
            if !(outcomes[i].spawned && outcomes[i].exit_ok) {
                return Err(
                    AppError::PlatformError(
                        "Failed to set wallpaper for monitor ".to_owned().concat(
                            monitors[i].as_str(),
                        ).concat(": ").concat(outcomes[i].stderr.as_str()),
                    ),
                );
            }
            i = i + 1;
        }
        Ok(())
    }

    /// The video-wallpaper invocation: the media player in wallpaper mode.
    pub fn video_wallpaper_command(&self, path: &str) -> (r: ToolCommand)
        ensures
            r.program@ == "vlc"@,
            r.args_view() == seq![
                "--wallpaper-mode"@,
                "--no-video-title-show"@,
                "--loop"@,
                "--no-audio"@,
                path@,
            ],
    {
        let mut args: Vec<String> = Vec::new();
        args.push("--wallpaper-mode".to_owned());
        args.push("--no-video-title-show".to_owned());
        args.push("--loop".to_owned());
        args.push("--no-audio".to_owned());
        args.push(path.to_owned());
        let r = ToolCommand { program: "vlc".to_owned(), args };
        proof {
            assert(r.args_view() =~= seq![
                "--wallpaper-mode"@,
                "--no-video-title-show"@,
                "--loop"@,
                "--no-audio"@,
                path@,
            ]);
        }
        r
    }

    /// The web-wallpaper invocation: a browser in kiosk mode on the URL.
    pub fn web_wallpaper_command(&self, url: &str) -> (r: ToolCommand)
        ensures
            r.program@ == "firefox"@,
            r.args_view() == seq!["--kiosk"@, url@],
    {
        let mut args: Vec<String> = Vec::new();
        args.push("--kiosk".to_owned());
        args.push(url.to_owned());
        let r = ToolCommand { program: "firefox".to_owned(), args };
        proof {
            assert(r.args_view() =~= seq!["--kiosk"@, url@]);
        }
        r
    }

    /// The shader-wallpaper fallback chain: the GLSL viewer fullscreen,
    /// then the shader viewer.
    pub fn shader_wallpaper_commands(&self, path: &str) -> (r: Vec<ToolCommand>)
        ensures
            r@.len() == 2,
            r@[0].program@ == "glslviewer"@,
            r@[0].args_view() == seq!["--fullscreen"@, path@],
            r@[1].program@ == "shadertoy"@,
            r@[1].args_view() == seq![path@],
    {
        let mut r: Vec<ToolCommand> = Vec::new();
        let mut gargs: Vec<String> = Vec::new();
        gargs.push("--fullscreen".to_owned());
        gargs.push(path.to_owned());
        let g = ToolCommand { program: "glslviewer".to_owned(), args: gargs };
        let mut sargs: Vec<String> = Vec::new();
        sargs.push(path.to_owned());
        let s = ToolCommand { program: "shadertoy".to_owned(), args: sargs };
        proof {
            assert(g.args_view() =~= seq!["--fullscreen"@, path@]);
            assert(s.args_view() =~= seq![path@]);
        }
        r.push(g);
        r.push(s);
        r
    }

    /// The audio-wallpaper fallback chain: the console visualizer
    /// fullscreen, then the shader viewer with audio support.
    pub fn audio_wallpaper_commands(&self, path: &str) -> (r: Vec<ToolCommand>)
        ensures
            r@.len() == 2,
            r@[0].program@ == "cava"@,
            r@[0].args_view() == seq!["--fullscreen"@, path@],
            r@[1].program@ == "shadertoy"@,
            r@[1].args_view() == seq!["--audio"@, path@],
    {
        let mut r: Vec<ToolCommand> = Vec::new();
        let mut cargs: Vec<String> = Vec::new();
        cargs.push("--fullscreen".to_owned());
        cargs.push(path.to_owned());
        let c = ToolCommand { program: "cava".to_owned(), args: cargs };
        let mut sargs: Vec<String> = Vec::new();
        sargs.push("--audio".to_owned());
        sargs.push(path.to_owned());
        let s = ToolCommand { program: "shadertoy".to_owned(), args: sargs };
        proof {
            assert(c.args_view() =~= seq!["--fullscreen"@, path@]);
            assert(s.args_view() =~= seq!["--audio"@, path@]);
        }
        r.push(c);
        r.push(s);
        r
    }

    /// Interpret a two-step fallback chain: the first tool that exited
    /// zero wins; with both failed, the error carries the given operation
    /// text and the last outcome's diagnostic.
    pub fn chain_result(&self, label: &str, outcomes: &Vec<CommandOutcome>) -> (r: Result<
        (),
        AppError,
    >)
        requires
            outcomes@.len() > 0,
        ensures
            r is Ok <==> (exists|j: int|
                0 <= j < outcomes@.len() && spec_outcome_ok(#[trigger] outcomes@[j])),
            r is Err ==> (r matches Err(AppError::PlatformError(m)) && m@ == label@ + ": "@
                + outcomes@[outcomes@.len() - 1].stderr@),
    {
        match chain_first_success(outcomes) {
            Some(_) => Ok(()),
            None => {
                let last = outcomes.len() - 1;
                Err(
                    AppError::PlatformError(
                        label.to_owned().concat(": ").concat(outcomes[last].stderr.as_str()),
                    ),
                )
            },
        }
    }

    /// The clear-wallpaper invocation: unload every wallpaper from the
    /// compositor's wallpaper utility. Stopping a wallpaper is the same
    /// operation on this platform.
    pub fn clear_wallpaper_command(&self) -> (r: ToolCommand)
        ensures
            r.program@ == "hyprctl"@,
            r.args_view() == seq!["hyprpaper"@, "unload"@, "all"@],
    {
        let mut args: Vec<String> = Vec::new();
        args.push("hyprpaper".to_owned());
        args.push("unload".to_owned());
        args.push("all".to_owned());
        let r = ToolCommand { program: "hyprctl".to_owned(), args };
        proof {
            assert(r.args_view() =~= seq!["hyprpaper"@, "unload"@, "all"@]);
        }
        r
    }

    /// Interpret the clear-wallpaper run.
    pub fn clear_result(&self, outcome: &CommandOutcome) -> (r: Result<(), AppError>)
        ensures
            r is Ok <==> spec_outcome_ok(*outcome),
            r is Err ==> (r matches Err(AppError::PlatformError(m)) && m@
                == "Failed to clear wallpaper: "@ + outcome.stderr@),
    {
        if outcome.spawned && outcome.exit_ok {
            Ok(())
        } else {
            Err(
                AppError::PlatformError(
                    "Failed to clear wallpaper: ".to_owned().concat(outcome.stderr.as_str()),
                ),
            )
        }
    }
}

/// Create a Hyprland wallpaper manager.
pub fn create_hyprland_wallpaper_manager() -> (r: HyprlandWallpaperManager) {
    HyprlandWallpaperManager
}

/// Windows-specific wallpaper manager, driving the system parameters call
/// through the shell and fullscreen viewers.
#[derive(Debug, Clone)]
pub struct WindowsWallpaperManager;

impl WindowsWallpaperManager {
    /// Create a new Windows wallpaper manager.
    pub fn new() -> (r: Result<Self, AppError>)
        ensures
            r is Ok,
    {
        Ok(WindowsWallpaperManager)
    }

    /// Initialize the Windows wallpaper manager: nothing to prepare.
    pub fn init() -> (r: Result<(), AppError>)
        ensures
            r is Ok,
    {
        Ok(())
    }

    /// The shell fragment that precedes the path in the static-wallpaper
    /// invocation.
    pub fn set_wallpaper_script_prefix() -> (r: &'static str)
        ensures
            r@ == spec_set_wallpaper_script_prefix(),
    {
        "Add-Type -TypeDefinition @'\nusing System;\nusing System.Runtime.InteropServices;\npublic class Wallpaper {\n    [DllImport(\"user32.dll\", CharSet = CharSet.Auto)]\n    public static extern int SystemParametersInfo(int uAction, int uParam, string lpvParam, int fuWinIni);\n}\n'@;\n[Wallpaper]::SystemParametersInfo(0x0014, 0, '"
    }

    /// The shell fragment that follows the path in the static-wallpaper
    /// invocation.
    pub fn set_wallpaper_script_suffix() -> (r: &'static str)
        ensures
            r@ == spec_set_wallpaper_script_suffix(),
    {
        "', 0x01 -bor 0x02)"
    }

    /// The static-wallpaper invocation: the shell runs the system
    /// parameters call on the path.
    pub fn static_wallpaper_command(&self, path: &str) -> (r: ToolCommand)
        ensures
            r.program@ == "powershell"@,
            r.args_view() == seq![
                "-Command"@,
                spec_set_wallpaper_script_prefix() + path@ + spec_set_wallpaper_script_suffix(),
            ],
    {
        let mut args: Vec<String> = Vec::new();
        args.push("-Command".to_owned());
        args.push(
            Self::set_wallpaper_script_prefix().to_owned().concat(path).concat(
                Self::set_wallpaper_script_suffix(),
            ),
        );
        let r = ToolCommand { program: "powershell".to_owned(), args };
        proof {
            assert(r.args_view() =~= seq![
                "-Command"@,
                spec_set_wallpaper_script_prefix() + path@ + spec_set_wallpaper_script_suffix(),
            ]);
        }
        r
    }

    /// The clear-wallpaper invocation: the same system parameters call
    /// with an empty path. Stopping a wallpaper is the same operation on
    /// this platform.
    pub fn clear_wallpaper_command(&self) -> (r: ToolCommand)
        ensures
            r.program@ == "powershell"@,
            r.args_view() == seq![
                "-Command"@,
                spec_set_wallpaper_script_prefix() + spec_set_wallpaper_script_suffix(),
            ],
    {
        let mut args: Vec<String> = Vec::new();
        args.push("-Command".to_owned());
        args.push(
            Self::set_wallpaper_script_prefix().to_owned().concat(
                Self::set_wallpaper_script_suffix(),
            ),
        );
        let r = ToolCommand { program: "powershell".to_owned(), args };
        proof {
            assert(r.args_view() =~= seq![
                "-Command"@,
                spec_set_wallpaper_script_prefix() + spec_set_wallpaper_script_suffix(),
            ]);
        }
        r
    }

    /// The video-wallpaper invocation: the media player in wallpaper mode.
    pub fn video_wallpaper_command(&self, path: &str) -> (r: ToolCommand)
        ensures
            r.program@ == "vlc"@,
            r.args_view() == seq!["--video-wallpaper"@, "--no-audio"@, "--loop"@, path@],
    {
        let mut args: Vec<String> = Vec::new();
        args.push("--video-wallpaper".to_owned());
        args.push("--no-audio".to_owned());
        args.push("--loop".to_owned());
        args.push(path.to_owned());
        let r = ToolCommand { program: "vlc".to_owned(), args };
        proof {
            assert(r.args_view() =~= seq![
                "--video-wallpaper"@,
                "--no-audio"@,
                "--loop"@,
                path@,
            ]);
        }
        r
    }

    /// The web-wallpaper invocation: the system browser on a new window.
    pub fn web_wallpaper_command(&self, url: &str) -> (r: ToolCommand)
        ensures
            r.program@ == "start"@,
            r.args_view() == seq!["msedge"@, "--new-window"@, url@],
    {
        let mut args: Vec<String> = Vec::new();
        args.push("msedge".to_owned());
        args.push("--new-window".to_owned());
        args.push(url.to_owned());
        let r = ToolCommand { program: "start".to_owned(), args };
        proof {
            assert(r.args_view() =~= seq!["msedge"@, "--new-window"@, url@]);
        }
        r
    }

    /// The shader-wallpaper invocation: the shader viewer on the asset.
    pub fn shader_wallpaper_command(&self, path: &str) -> (r: ToolCommand)
        ensures
            r.program@ == "shadertoy"@,
            r.args_view() == seq![path@],
    {
        let mut args: Vec<String> = Vec::new();
        args.push(path.to_owned());
        let r = ToolCommand { program: "shadertoy".to_owned(), args };
        proof {
            assert(r.args_view() =~= seq![path@]);
        }
        r
    }

    /// The audio-wallpaper invocation: the shader viewer with audio
    /// visualization on the asset.
    pub fn audio_wallpaper_command(&self, path: &str) -> (r: ToolCommand)
        ensures
            r.program@ == "shadertoy"@,
            r.args_view() == seq!["--audio"@, path@],
    {
        let mut args: Vec<String> = Vec::new();
        args.push("--audio".to_owned());
        args.push(path.to_owned());
        let r = ToolCommand { program: "shadertoy".to_owned(), args };
        proof {
            assert(r.args_view() =~= seq!["--audio"@, path@]);
        }
        r
    }
}

/// The shell fragment that precedes the path in the Windows
/// static-wallpaper invocation.
pub open spec fn spec_set_wallpaper_script_prefix() -> Seq<char> {
    "Add-Type -TypeDefinition @'\nusing System;\nusing System.Runtime.InteropServices;\npublic class Wallpaper {\n    [DllImport(\"user32.dll\", CharSet = CharSet.Auto)]\n    public static extern int SystemParametersInfo(int uAction, int uParam, string lpvParam, int fuWinIni);\n}\n'@;\n[Wallpaper]::SystemParametersInfo(0x0014, 0, '"@
}

/// The shell fragment that follows the path in the Windows
/// static-wallpaper invocation.
pub open spec fn spec_set_wallpaper_script_suffix() -> Seq<char> {
    "', 0x01 -bor 0x02)"@
}

/// The kind of operating system the process was started on.
#[derive(Debug, Clone, Copy, PartialEq, Eq, Structural)]
pub enum OsKind {
    /// Windows.
    Windows,
    /// Linux.
    Linux,
    /// Anything else: no wallpaper manager exists for it.
    Other,
}

/// A platform wallpaper manager, selected once at startup.
#[derive(Debug, Clone)]
pub enum PlatformManager {
    /// The Windows strategy.
    Windows(WindowsWallpaperManager),
    /// The Hyprland strategy, chosen on Linux when the compositor is
    /// detected.
    Hyprland(HyprlandWallpaperManager),
    /// The general Linux strategy, refined by the detected desktop
    /// environment.
    Linux(LinuxWallpaperManager),
}

/// Select the platform strategy once at startup: Windows gets the Windows
/// manager; Linux gets the Hyprland manager when the current-desktop
/// variable names that compositor, else the general Linux manager for the
/// detected desktop environment; any other system is unsupported.
pub fn create_wallpaper_manager(
    os: OsKind,
    xdg_current_desktop: Option<String>,
    desktop_session: Option<String>,
    gnome_session: bool,
    kde_session: bool,
) -> (r: Result<PlatformManager, AppError>)
    ensures
        match os {
            OsKind::Windows => r matches Ok(PlatformManager::Windows(_)),
            OsKind::Linux => {
                if spec_is_hyprland(
                    match xdg_current_desktop {
                        Some(v) => Some(v@),
                        None => None,
                    },
                ) {
                    r matches Ok(PlatformManager::Hyprland(_))
                } else {
                    r matches Ok(PlatformManager::Linux(m)) && m.spec_desktop_env()
                        == spec_detect_desktop_environment(
                        xdg_current_desktop,
                        desktop_session,
                        gnome_session,
                        kde_session,
                    ) && m.spec_current() is None
                }
            },
            OsKind::Other => r == Err::<PlatformManager, AppError>(AppError::UnsupportedPlatform),
        },
{
    match os {
        OsKind::Windows => match WindowsWallpaperManager::new() {
            Ok(m) => Ok(PlatformManager::Windows(m)),
            Err(e) => Err(e),
        },
        OsKind::Linux => {
            let hypr = match &xdg_current_desktop {
                Some(v) => is_hyprland(Some(v.as_str())),
                None => is_hyprland(None),
            };
            if hypr {
                Ok(PlatformManager::Hyprland(create_hyprland_wallpaper_manager()))
            } else {
                let env = detect_desktop_environment(
                    xdg_current_desktop,
                    desktop_session,
                    gnome_session,
                    kde_session,
                );
                Ok(PlatformManager::Linux(LinuxWallpaperManager::new(env)))
            }
        },
        OsKind::Other => Err(AppError::UnsupportedPlatform),
    }
}

/// Interpret the run of one command whose failure is the operation's
/// failure: a tool that could not be spawned is an I/O error, one that
/// exited non-zero reports its standard error text.
pub fn single_command_result(outcome: &CommandOutcome) -> (r: Result<(), AppError>)
    ensures
        r is Ok <==> spec_outcome_ok(*outcome),
        !outcome.spawned ==> (r matches Err(AppError::IoError(m)) && m@ == outcome.stderr@),
        outcome.spawned && !outcome.exit_ok ==> (r matches Err(AppError::WallpaperError(m)) && m@
            == outcome.stderr@),
{
    if !outcome.spawned {
        Err(AppError::IoError(outcome.stderr.clone()))
    } else if !outcome.exit_ok {
        Err(AppError::WallpaperError(outcome.stderr.clone()))
    } else {
        Ok(())
    }
}

/// Interpret one helper-tool run, reporting failure under the tool's name:
/// a tool that could not be spawned is an I/O error, one that exited
/// non-zero reports its name and standard error text.
pub fn helper_tool_result(tool: &str, outcome: &CommandOutcome) -> (r: Result<(), AppError>)
    ensures
        r is Ok <==> spec_outcome_ok(*outcome),
        !outcome.spawned ==> (r matches Err(AppError::IoError(m)) && m@ == outcome.stderr@),
        outcome.spawned && !outcome.exit_ok ==> (r matches Err(AppError::PlatformError(m)) && m@
            == tool@ + " failed: "@ + outcome.stderr@),
{
    if !outcome.spawned {
        Err(AppError::IoError(outcome.stderr.clone()))
    } else if !outcome.exit_ok {
        Err(
            AppError::PlatformError(
                tool.to_owned().concat(" failed: ").concat(outcome.stderr.as_str()),
            ),
        )
    } else {
        Ok(())
    }
}

} // verus!
