//! The five wallpaper backends, modelled as verified state machines.
//!
//! Starting, stopping and signalling helper processes blocks on external
//! commands, so the surrounding program performs those calls and reports
//! their outcomes; every decision — what to run, what a missing asset means,
//! when a cached pid is reused, when one rediscovery pass is allowed — is
//! made and proved here.

use vstd::prelude::*;
use vstd::string::*;

use crate::config::WallpaperType;
use crate::error::AppError;
use crate::types::WallpaperInfo;

verus! {

/// The one currently running backend plus any helper pid it owns. At most
/// one of these exists system-wide at any time; the scheduler's slot is its
/// only owner.
#[derive(Debug, Clone, PartialEq, Eq)]
pub struct ActiveWallpaper {
    /// The backend kind.
    pub kind: WallpaperType,
    /// The asset path, or the URL for a web backend.
    pub source: String,
    /// The helper process id, when one was discovered or spawned.
    pub pid: Option<u32>,
}

impl ActiveWallpaper {
    /// An exact copy, field for field.
    pub fn duplicate(&self) -> (r: Self)
        ensures
            r == *self,
    {
        ActiveWallpaper { kind: self.kind, source: self.source.clone(), pid: self.pid }
    }
}

/// The diagnostic a backend constructor reports when the field its kind
/// requires is missing.
pub open spec fn spec_missing_field_error(kind: WallpaperType) -> Seq<char> {
    match kind {
        WallpaperType::Static => "Static wallpaper path is missing"@,
        WallpaperType::Video => "Video wallpaper path is missing"@,
        WallpaperType::Web => "Web wallpaper URL is missing"@,
        WallpaperType::Shader => "Shader wallpaper path is missing"@,
        WallpaperType::Audio => "Audio wallpaper path is missing"@,
    }
}

/// The diagnostic a backend constructor reports when a description carries
/// the field its kind must leave unset.
pub open spec fn spec_spurious_field_error(kind: WallpaperType) -> Seq<char> {
    match kind {
        WallpaperType::Static => "Static wallpaper must not carry a URL"@,
        WallpaperType::Video => "Video wallpaper must not carry a URL"@,
        WallpaperType::Web => "Web wallpaper must not carry a file path"@,
        WallpaperType::Shader => "Shader wallpaper must not carry a URL"@,
        WallpaperType::Audio => "Audio wallpaper must not carry a URL"@,
    }
}

/// The diagnostic a backend constructor reports for a description that
/// breaks its kind's field invariant: the required field is missing, or —
/// with it present — the other field is set.
pub open spec fn spec_backend_field_error(info: WallpaperInfo) -> Seq<char> {
    match info.kind {
        WallpaperType::Web => if info.url is None {
            spec_missing_field_error(info.kind)
        } else {
            spec_spurious_field_error(info.kind)
        },
        _ => if info.path is None {
            spec_missing_field_error(info.kind)
        } else {
            spec_spurious_field_error(info.kind)
        },
    }
}

/// The source a well-formed wallpaper description hands its backend: the
/// URL for a web wallpaper, the asset path for every other kind.
pub open spec fn spec_source_of(info: WallpaperInfo) -> Seq<char> {
    match info.kind {
        WallpaperType::Web => info.url->0@,
        _ => info.path->0@,
    }
}

/// Construct the backend descriptor for a wallpaper description. This is
/// the closed dispatch over exactly the five kinds: it succeeds if and only
/// if the description carries the field its kind requires and leaves the
/// other unset.
pub fn backend_for(info: &WallpaperInfo) -> (r: Result<ActiveWallpaper, AppError>)
    ensures
        r is Ok <==> info.is_well_formed(),
        match r {
            Ok(a) => a.kind == info.kind && a.source@ == spec_source_of(*info) && a.pid is None,
            Err(e) => (e matches AppError::WallpaperError(m) && m@ == spec_backend_field_error(
                *info,
            )),
        },
{
    match info.kind {
        WallpaperType::Web => match &info.url {
            Some(url) => {
                if info.path.is_some() {
                    return Err(AppError::WallpaperError(spurious_field_message(info.kind)));
                }
                Ok(ActiveWallpaper { kind: info.kind, source: url.clone(), pid: None })
            },
            None => Err(AppError::WallpaperError(missing_field_message(info.kind))),
        },
        _ => match &info.path {
            Some(path) => {
                if info.url.is_some() {
                    return Err(
                        AppError::WallpaperError(spurious_field_message(info.kind)),
                    );
                }
                Ok(ActiveWallpaper { kind: info.kind, source: path.clone(), pid: None })
            },
            None => Err(AppError::WallpaperError(missing_field_message(info.kind))),
        },
    }
}

/// The message for a description missing the field its kind requires.
fn missing_field_message(kind: WallpaperType) -> (r: String)
    ensures
        r@ == spec_missing_field_error(kind),
{
    match kind {
        WallpaperType::Static => "Static wallpaper path is missing".to_owned(),
        WallpaperType::Video => "Video wallpaper path is missing".to_owned(),
        WallpaperType::Web => "Web wallpaper URL is missing".to_owned(),
        WallpaperType::Shader => "Shader wallpaper path is missing".to_owned(),
        WallpaperType::Audio => "Audio wallpaper path is missing".to_owned(),
    }
}

/// The message for a description carrying the field its kind must leave
/// unset.
fn spurious_field_message(kind: WallpaperType) -> (r: String)
    ensures
        r@ == spec_spurious_field_error(kind),
{
    match kind {
        WallpaperType::Static => "Static wallpaper must not carry a URL".to_owned(),
        WallpaperType::Video => "Video wallpaper must not carry a URL".to_owned(),
        WallpaperType::Web => "Web wallpaper must not carry a file path".to_owned(),
        WallpaperType::Shader => "Shader wallpaper must not carry a URL".to_owned(),
        WallpaperType::Audio => "Audio wallpaper must not carry a URL".to_owned(),
    }
}

/// Static wallpaper: delegates entirely to the platform manager. A still
/// image needs no process control, so pause and resume are no-ops.
#[derive(Debug, Clone)]
pub struct StaticWallpaper {
    /// Wallpaper path.
    path: String,
}

impl StaticWallpaper {
    /// Create a new static wallpaper.
    pub fn new(path: &str) -> (r: Self)
        ensures
            r.spec_path() == path@,
    {
        StaticWallpaper { path: path.to_owned() }
    }

    /// The wallpaper path, as a sequence of characters.
    pub closed spec fn spec_path(&self) -> Seq<char> {
        self.path@
    }

    /// Get the wallpaper type.
    pub fn get_type(&self) -> (r: WallpaperType)
        ensures
            r == WallpaperType::Static,
    {
        WallpaperType::Static
    }

    /// Get the wallpaper path.
    pub fn get_path(&self) -> (r: Option<&str>)
        ensures
            match r {
                Some(p) => p@ == self.spec_path(),
                None => false,
            },
    {
        Some(self.path.as_str())
    }

    /// Pause the wallpaper: a no-op for a still image.
    pub fn pause(&self) -> (r: Result<(), AppError>)
        ensures
            r is Ok,
    {
        Ok(())
    }

    /// Resume the wallpaper: a no-op for a still image.
    pub fn resume(&self) -> (r: Result<(), AppError>)
        ensures
            r is Ok,
    {
        Ok(())
    }
}

/// Video wallpaper: spawns a media player on the asset. Pause and resume
/// are approximated as stop and restart because no IPC control channel
/// exists — a documented limitation of this backend.
#[derive(Debug, Clone)]
pub struct VideoWallpaper {
    /// Video path.
    path: String,
    /// Whether the video is playing.
    is_playing: bool,
}

impl VideoWallpaper {
    /// Create a new video wallpaper; nothing plays until it is started.
    pub fn new(path: &str) -> (r: Self)
        ensures
            r.spec_path() == path@,
            !r.spec_is_playing(),
    {
        VideoWallpaper { path: path.to_owned(), is_playing: false }
    }

    /// The video path, as a sequence of characters.
    pub closed spec fn spec_path(&self) -> Seq<char> {
        self.path@
    }

    /// Whether the video is playing.
    pub closed spec fn spec_is_playing(&self) -> bool {
        self.is_playing
    }

    /// Get the wallpaper type.
    pub fn get_type(&self) -> (r: WallpaperType)
        ensures
            r == WallpaperType::Video,
    {
        WallpaperType::Video
    }

    /// Get the wallpaper path.
    pub fn get_path(&self) -> (r: Option<&str>)
        ensures
            match r {
                Some(p) => p@ == self.spec_path(),
                None => false,
            },
    {
        Some(self.path.as_str())
    }

    /// Validate a start: the asset file must exist before anything is
    /// spawned.
    pub fn start_check(&self, file_exists: bool) -> (r: Result<(), AppError>)
        ensures
            r is Ok <==> file_exists,
            r is Err ==> (r matches Err(AppError::WallpaperError(m)) && m@
                == "Video file does not exist: "@ + self.spec_path()),
    {
        if file_exists {
            Ok(())
        } else {
            Err(
                AppError::WallpaperError(
                    "Video file does not exist: ".to_owned().concat(self.path.as_str()),
                ),
            )
        }
    }

    /// Record that the player was spawned.
    pub fn on_started(&mut self)
        ensures
            final(self).spec_path() == old(self).spec_path(),
            final(self).spec_is_playing(),
    {
        self.is_playing = true;
    }

    /// Stop the video. The surrounding program kills and waits on the
    /// child; a process that already exited is not an error.
    pub fn stop(&mut self) -> (r: Result<(), AppError>)
        ensures
            final(self).spec_path() == old(self).spec_path(),
            !final(self).spec_is_playing(),
            r is Ok,
    {
        self.is_playing = false;
        Ok(())
    }

    /// Pause the video: approximated as a stop.
    pub fn pause(&mut self) -> (r: Result<(), AppError>)
        ensures
            final(self).spec_path() == old(self).spec_path(),
            !final(self).spec_is_playing(),
            r is Ok,
    {
        self.is_playing = false;
        Ok(())
    }

    /// Whether a resume must restart the player: true exactly when the
    /// video is not playing.
    pub fn resume_needs_restart(&self) -> (r: bool)
        ensures
            r == !self.spec_is_playing(),
    {
        !self.is_playing
    }

    /// The candidate locations a media-player probe tries, in order.
    pub fn mpv_candidates() -> (r: Vec<String>)
        ensures
            r@.len() == 4,
            r@[0]@ == "mpv"@,
            r@[1]@ == "mpv.exe"@,
            r@[2]@ == "C:\\Program Files\\mpv\\mpv.exe"@,
            r@[3]@ == "C:\\Program Files (x86)\\mpv\\mpv.exe"@,
    {
        let mut v: Vec<String> = Vec::new();
        v.push("mpv".to_owned());
        v.push("mpv.exe".to_owned());
        v.push("C:\\Program Files\\mpv\\mpv.exe".to_owned());
        v.push("C:\\Program Files (x86)\\mpv\\mpv.exe".to_owned());
        v
    }

    /// Select the first candidate whose version probe succeeded; when every
    /// probe failed the player is not installed.
    pub fn select_mpv_command(probe_ok: &Vec<bool>) -> (r: Result<usize, AppError>)
        ensures
            match r {
                Ok(i) => i < probe_ok@.len() && probe_ok@[i as int] && (forall|j: int|
                    0 <= j < i ==> !probe_ok@[j]),
                Err(e) => (forall|j: int| 0 <= j < probe_ok@.len() ==> !probe_ok@[j]) && (
                e matches AppError::WallpaperError(m) && m@
                    == "MPV is not installed or not available. Please install MPV from https://mpv.io/"@),
            },
    {
        let n = probe_ok.len();
        let mut i: usize = 0;
        while i < n
            invariant
                i <= n,
                n == probe_ok@.len(),
                forall|j: int| 0 <= j < i ==> !probe_ok@[j],
            decreases n - i,
        {
            if probe_ok[i] {
                return Ok(i);
            }
            i = i + 1;
        }
        Err(
            AppError::WallpaperError(
                "MPV is not installed or not available. Please install MPV from https://mpv.io/".to_owned(),
            ),
        )
    }

    /// The player argument list for wallpaper mode: loop forever, no audio,
    /// borderless, hardware decode if available; embedded into the given
    /// desktop-layer window when one exists, else fullscreen — and kept on
    /// top when the fullscreen mode is the fallback for a failed embedding.
    pub open spec fn spec_mpv_args(
        path: Seq<char>,
        window_id: Option<Seq<char>>,
        ontop_fallback: bool,
    ) -> Seq<Seq<char>> {
        let base = seq![
            "--loop-file=inf"@,
            "--no-audio"@,
            "--no-border"@,
            "--osd-level=0"@,
            "--quiet"@,
            "--no-config"@,
            "--no-input-default-bindings"@,
            "--no-input-cursor"@,
            "--hwdec=auto"@,
            "--keepaspect=no"@,
            "--no-terminal"@,
        ];
        let windowing = match window_id {
            Some(id) => seq!["--wid"@, id, "--no-keepaspect-window"@],
            None => if ontop_fallback {
                seq!["--fs"@, "--no-keepaspect"@, "--ontop"@]
            } else {
                seq!["--fs"@, "--no-keepaspect"@]
            },
        };
        base + windowing + seq![path]
    }

    /// Build the player argument list for this video.
    pub fn mpv_wallpaper_args(&self, window_id: Option<&str>, ontop_fallback: bool) -> (r: Vec<
        String,
    >)
        ensures
            r@.map_values(|s: String| s@) == Self::spec_mpv_args(
                self.spec_path(),
                match window_id {
                    Some(w) => Some(w@),
                    None => None,
                },
                ontop_fallback,
            ),
    {
        let mut v: Vec<String> = Vec::new();
        v.push("--loop-file=inf".to_owned());
        v.push("--no-audio".to_owned());
        v.push("--no-border".to_owned());
        v.push("--osd-level=0".to_owned());
        v.push("--quiet".to_owned());
        v.push("--no-config".to_owned());
        v.push("--no-input-default-bindings".to_owned());
        v.push("--no-input-cursor".to_owned());
        v.push("--hwdec=auto".to_owned());
        v.push("--keepaspect=no".to_owned());
        v.push("--no-terminal".to_owned());
        match window_id {
            Some(id) => {
                v.push("--wid".to_owned());
                v.push(id.to_owned());
                v.push("--no-keepaspect-window".to_owned());
            },
            None => {
                v.push("--fs".to_owned());
                v.push("--no-keepaspect".to_owned());
                if ontop_fallback {
                    v.push("--ontop".to_owned());
                }
            },
        }
        v.push(self.path.clone());
        proof {
            assert(v@.map_values(|s: String| s@) =~= Self::spec_mpv_args(
                self.spec_path(),
                match window_id {
                    Some(w) => Some(w@),
                    None => None,
                },
                ontop_fallback,
            ));
        }
        v
    }
}

/// Web wallpaper: delegates to a platform browser launch. Pause attempts a
/// window-minimize or process-suspend through a discovered pid; resume is
/// not implemented — an explicit gap, not a silent success.
#[derive(Debug, Clone)]
pub struct WebWallpaper {
    /// Web URL.
    url: String,
    /// Whether the web wallpaper is active.
    is_active: bool,
    /// Browser process id for control, when discovered.
    browser_pid: Option<u32>,
}

impl WebWallpaper {
    /// Create a new web wallpaper; nothing runs until it is started.
    pub fn new(url: &str) -> (r: Self)
        ensures
            r.spec_url() == url@,
            !r.spec_is_active(),
            r.spec_pid() is None,
    {
        WebWallpaper { url: url.to_owned(), is_active: false, browser_pid: None }
    }

    /// The URL, as a sequence of characters.
    pub closed spec fn spec_url(&self) -> Seq<char> {
        self.url@
    }

    /// Whether the web wallpaper is active.
    pub closed spec fn spec_is_active(&self) -> bool {
        self.is_active
    }

    /// The cached browser pid.
    pub closed spec fn spec_pid(&self) -> Option<u32> {
        self.browser_pid
    }

    /// Get the wallpaper type.
    pub fn get_type(&self) -> (r: WallpaperType)
        ensures
            r == WallpaperType::Web,
    {
        WallpaperType::Web
    }

    /// Get the wallpaper path: a web wallpaper has none.
    pub fn get_path(&self) -> (r: Option<&str>)
        ensures
            r is None,
    {
        None
    }

    /// Record that the browser launch succeeded.
    pub fn on_started(&mut self)
        ensures
            final(self).spec_url() == old(self).spec_url(),
            final(self).spec_is_active(),
            final(self).spec_pid() == old(self).spec_pid(),
    {
        self.is_active = true;
    }

    /// Stop the web wallpaper, clearing the cached pid and active state.
    pub fn stop(&mut self) -> (r: Result<(), AppError>)
        ensures
            final(self).spec_url() == old(self).spec_url(),
            !final(self).spec_is_active(),
            final(self).spec_pid() is None,
            r is Ok,
    {
        self.browser_pid = None;
        self.is_active = false;
        Ok(())
    }

    /// Choose the pid a pause signal should target: the cached pid when one
    /// exists, else the result of the one fresh discovery pass this backend
    /// is allowed, which is then cached. With neither, the pause fails.
    pub fn pause_target(&mut self, discovered: Option<u32>) -> (r: Result<u32, AppError>)
        ensures
            final(self).spec_url() == old(self).spec_url(),
            final(self).spec_is_active() == old(self).spec_is_active(),
            match old(self).spec_pid() {
                Some(p) => r == Ok::<u32, AppError>(p) && final(self).spec_pid() == Some(p),
                None => match discovered {
                    Some(p) => r == Ok::<u32, AppError>(p) && final(self).spec_pid() == Some(p),
                    None => final(self).spec_pid() is None && (r matches Err(
                        AppError::WallpaperError(m),
                    ) && m@ == "Browser process not found"@),
                },
            },
    {
        match self.browser_pid {
            Some(p) => Ok(p),
            None => match discovered {
                Some(p) => {
                    self.browser_pid = Some(p);
                    Ok(p)
                },
                None => Err(AppError::WallpaperError("Browser process not found".to_owned())),
            },
        }
    }

    /// Interpret the outcome of the pause signal.
    pub fn pause_outcome(&self, success: bool) -> (r: Result<(), AppError>)
        ensures
            r is Ok <==> success,
            r is Err ==> (r matches Err(AppError::WallpaperError(m)) && m@
                == "Failed to pause web wallpaper"@),
    {
        if success {
            Ok(())
        } else {
            Err(AppError::WallpaperError("Failed to pause web wallpaper".to_owned()))
        }
    }

    /// Resume is not implemented for web wallpapers.
    pub fn resume(&self) -> (r: Result<(), AppError>)
        ensures
            r matches Err(AppError::WallpaperError(m)) && m@
                == "Web wallpaper resuming not implemented yet"@,
    {
        Err(AppError::WallpaperError("Web wallpaper resuming not implemented yet".to_owned()))
    }
}

/// Shader wallpaper: spawns a shader viewer, then discovers its pid after a
/// settle delay. Pause suspends or minimizes through the pid; resume is not
/// implemented.
#[derive(Debug, Clone)]
pub struct ShaderWallpaper {
    /// Shader path.
    path: String,
    /// Whether the shader is active.
    is_active: bool,
    /// Shader process id for control, when discovered.
    shader_pid: Option<u32>,
}

impl ShaderWallpaper {
    /// Create a new shader wallpaper; nothing runs until it is started.
    pub fn new(path: &str) -> (r: Self)
        ensures
            r.spec_path() == path@,
            !r.spec_is_active(),
            r.spec_pid() is None,
    {
        ShaderWallpaper { path: path.to_owned(), is_active: false, shader_pid: None }
    }

    /// The shader path, as a sequence of characters.
    pub closed spec fn spec_path(&self) -> Seq<char> {
        self.path@
    }

    /// Whether the shader is active.
    pub closed spec fn spec_is_active(&self) -> bool {
        self.is_active
    }

    /// The cached helper pid.
    pub closed spec fn spec_pid(&self) -> Option<u32> {
        self.shader_pid
    }

    /// Get the wallpaper type.
    pub fn get_type(&self) -> (r: WallpaperType)
        ensures
            r == WallpaperType::Shader,
    {
        WallpaperType::Shader
    }

    /// Get the wallpaper path.
    pub fn get_path(&self) -> (r: Option<&str>)
        ensures
            match r {
                Some(p) => p@ == self.spec_path(),
                None => false,
            },
    {
        Some(self.path.as_str())
    }

    /// Record a successful start: the backend is active, and a pid found by
    /// the post-spawn discovery pass is cached (a failed pass keeps any
    /// earlier pid).
    pub fn on_started(&mut self, discovered: Option<u32>)
        ensures
            final(self).spec_path() == old(self).spec_path(),
            final(self).spec_is_active(),
            final(self).spec_pid() == (match discovered {
                Some(p) => Some(p),
                None => old(self).spec_pid(),
            }),
    {
        if let Some(p) = discovered {
            self.shader_pid = Some(p);
        }
        self.is_active = true;
    }

    /// Stop the shader wallpaper, clearing the cached pid and active state.
    pub fn stop(&mut self) -> (r: Result<(), AppError>)
        ensures
            final(self).spec_path() == old(self).spec_path(),
            !final(self).spec_is_active(),
            final(self).spec_pid() is None,
            r is Ok,
    {
        self.shader_pid = None;
        self.is_active = false;
        Ok(())
    }

    /// Choose the pid a pause signal should target, allowing one fresh
    /// discovery pass when none is cached.
    pub fn pause_target(&mut self, discovered: Option<u32>) -> (r: Result<u32, AppError>)
        ensures
            final(self).spec_path() == old(self).spec_path(),
            final(self).spec_is_active() == old(self).spec_is_active(),
            match old(self).spec_pid() {
                Some(p) => r == Ok::<u32, AppError>(p) && final(self).spec_pid() == Some(p),
                None => match discovered {
                    Some(p) => r == Ok::<u32, AppError>(p) && final(self).spec_pid() == Some(p),
                    None => final(self).spec_pid() is None && (r matches Err(
                        AppError::WallpaperError(m),
                    ) && m@ == "Shader process not found"@),
                },
            },
    {
        match self.shader_pid {
            Some(p) => Ok(p),
            None => match discovered {
                Some(p) => {
                    self.shader_pid = Some(p);
                    Ok(p)
                },
                None => Err(AppError::WallpaperError("Shader process not found".to_owned())),
            },
        }
    }

    /// Interpret the outcome of the pause signal.
    pub fn pause_outcome(&self, success: bool) -> (r: Result<(), AppError>)
        ensures
            r is Ok <==> success,
            r is Err ==> (r matches Err(AppError::WallpaperError(m)) && m@
                == "Failed to pause shader"@),
    {
        if success {
            Ok(())
        } else {
            Err(AppError::WallpaperError("Failed to pause shader".to_owned()))
        }
    }

    /// Resume is not implemented for shader wallpapers.
    pub fn resume(&self) -> (r: Result<(), AppError>)
        ensures
            r matches Err(AppError::WallpaperError(m)) && m@
                == "Shader resuming not implemented yet"@,
    {
        Err(AppError::WallpaperError("Shader resuming not implemented yet".to_owned()))
    }
}

/// Audio wallpaper: spawns an audio visualizer, then discovers its pid
/// after a settle delay. Pause suspends, resume sends the continue signal,
/// each allowing one fresh discovery pass when no pid is cached.
#[derive(Debug, Clone)]
pub struct AudioWallpaper {
    /// Audio path.
    path: String,
    /// Whether the audio wallpaper is active.
    is_active: bool,
    /// Audio visualizer process id for control, when discovered.
    audio_pid: Option<u32>,
}

impl AudioWallpaper {
    /// Create a new audio wallpaper; nothing runs until it is started.
    pub fn new(path: &str) -> (r: Self)
        ensures
            r.spec_path() == path@,
            !r.spec_is_active(),
            r.spec_pid() is None,
    {
        AudioWallpaper { path: path.to_owned(), is_active: false, audio_pid: None }
    }

    /// The audio path, as a sequence of characters.
    pub closed spec fn spec_path(&self) -> Seq<char> {
        self.path@
    }

    /// Whether the audio wallpaper is active.
    pub closed spec fn spec_is_active(&self) -> bool {
        self.is_active
    }

    /// The cached helper pid.
    pub closed spec fn spec_pid(&self) -> Option<u32> {
        self.audio_pid
    }

    /// Get the wallpaper type.
    pub fn get_type(&self) -> (r: WallpaperType)
        ensures
            r == WallpaperType::Audio,
    {
        WallpaperType::Audio
    }

    /// Get the wallpaper path.
    pub fn get_path(&self) -> (r: Option<&str>)
        ensures
            match r {
                Some(p) => p@ == self.spec_path(),
                None => false,
            },
    {
        Some(self.path.as_str())
    }

    /// Record a successful start: the backend is active, and a pid found by
    /// the post-spawn discovery pass is cached.
    pub fn on_started(&mut self, discovered: Option<u32>)
        ensures
            final(self).spec_path() == old(self).spec_path(),
            final(self).spec_is_active(),
            final(self).spec_pid() == (match discovered {
                Some(p) => Some(p),
                None => old(self).spec_pid(),
            }),
    {
        if let Some(p) = discovered {
            self.audio_pid = Some(p);
        }
        self.is_active = true;
    }

    /// Stop the audio wallpaper, clearing the cached pid and active state.
    pub fn stop(&mut self) -> (r: Result<(), AppError>)
        ensures
            final(self).spec_path() == old(self).spec_path(),
            !final(self).spec_is_active(),
            final(self).spec_pid() is None,
            r is Ok,
    {
        self.audio_pid = None;
        self.is_active = false;
        Ok(())
    }

    /// Choose the pid a pause or resume signal should target, allowing one
    /// fresh discovery pass when none is cached.
    pub fn control_target(&mut self, discovered: Option<u32>) -> (r: Result<u32, AppError>)
        ensures
            final(self).spec_path() == old(self).spec_path(),
            final(self).spec_is_active() == old(self).spec_is_active(),
            match old(self).spec_pid() {
                Some(p) => r == Ok::<u32, AppError>(p) && final(self).spec_pid() == Some(p),
                None => match discovered {
                    Some(p) => r == Ok::<u32, AppError>(p) && final(self).spec_pid() == Some(p),
                    None => final(self).spec_pid() is None && (r matches Err(
                        AppError::WallpaperError(m),
                    ) && m@ == "Audio visualizer process not found"@),
                },
            },
    {
        match self.audio_pid {
            Some(p) => Ok(p),
            None => match discovered {
                Some(p) => {
                    self.audio_pid = Some(p);
                    Ok(p)
                },
                None => Err(
                    AppError::WallpaperError("Audio visualizer process not found".to_owned()),
                ),
            },
        }
    }

    /// Interpret the outcome of the pause signal.
    pub fn pause_outcome(&self, success: bool) -> (r: Result<(), AppError>)
        ensures
            r is Ok <==> success,
            r is Err ==> (r matches Err(AppError::WallpaperError(m)) && m@
                == "Failed to pause audio wallpaper"@),
    {
        if success {
            Ok(())
        } else {
            Err(AppError::WallpaperError("Failed to pause audio wallpaper".to_owned()))
        }
    }

    /// Interpret the outcome of the resume signal.
    pub fn resume_outcome(&self, success: bool) -> (r: Result<(), AppError>)
        ensures
            r is Ok <==> success,
            r is Err ==> (r matches Err(AppError::WallpaperError(m)) && m@
                == "Failed to resume audio wallpaper"@),
    {
        if success {
            Ok(())
        } else {
            Err(AppError::WallpaperError("Failed to resume audio wallpaper".to_owned()))
        }
    }
}

} // verus!
