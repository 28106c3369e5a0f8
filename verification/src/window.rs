//! Desktop-layer window bookkeeping.
//!
//! On platforms that support embedding, a borderless window is created and
//! parented into the desktop background layer, behind the icons. The OS
//! calls that find, create, parent and show windows are the surrounding
//! program's job; the handles they return are recorded here as plain
//! numbers, with the decisions over them proved.

use vstd::prelude::*;

verus! {

/// Window manager for creating and managing wallpaper windows.
///
/// `window` is the wallpaper window's handle; `workerw` is the handle of
/// the desktop background window the wallpaper window is parented to.
#[derive(Debug, Clone)]
pub struct WindowManager {
    /// The wallpaper window handle.
    window: Option<i64>,
    /// The desktop background window handle.
    workerw: Option<i64>,
    /// Window class name.
    class_name: String,
}

impl WindowManager {
    /// The wallpaper window handle.
    pub closed spec fn spec_window(&self) -> Option<i64> {
        self.window
    }

    /// The desktop background window handle.
    pub closed spec fn spec_workerw(&self) -> Option<i64> {
        self.workerw
    }

    /// The window class name.
    pub closed spec fn spec_class_name(&self) -> Seq<char> {
        self.class_name@
    }

    /// Create a new window manager: no windows yet.
    pub fn new() -> (r: Self)
        ensures
            r.spec_window() is None,
            r.spec_workerw() is None,
            r.spec_class_name() == "AetherDeskWallpaper"@,
    {
        WindowManager { window: None, workerw: None, class_name: "AetherDeskWallpaper".to_owned() }
    }

    /// Get the window handle.
    pub fn get_window(&self) -> (r: Option<i64>)
        ensures
            r == self.spec_window(),
    {
        self.window
    }

    /// Get the desktop background window handle.
    pub fn get_workerw(&self) -> (r: Option<i64>)
        ensures
            r == self.spec_workerw(),
    {
        self.workerw
    }

    /// Record the desktop background window the discovery pass found.
    pub fn record_workerw(&mut self, handle: i64)
        ensures
            final(self).spec_window() == old(self).spec_window(),
            final(self).spec_workerw() == Some(handle),
            final(self).spec_class_name() == old(self).spec_class_name(),
    {
        self.workerw = Some(handle);
    }

    /// Record the wallpaper window that was created and parented.
    pub fn record_window(&mut self, handle: i64)
        ensures
            final(self).spec_window() == Some(handle),
            final(self).spec_workerw() == old(self).spec_workerw(),
            final(self).spec_class_name() == old(self).spec_class_name(),
    {
        self.window = Some(handle);
    }

    /// Forget the wallpaper window, handing its handle back so the
    /// surrounding program can destroy it.
    pub fn take_window(&mut self) -> (r: Option<i64>)
        ensures
            r == old(self).spec_window(),
            final(self).spec_window() is None,
            final(self).spec_workerw() == old(self).spec_workerw(),
            final(self).spec_class_name() == old(self).spec_class_name(),
    {
        let w = self.window;
        self.window = None;
        w
    }

    /// Whether the wallpaper window is valid: one was created and the OS
    /// still knows it.
    pub fn is_window_valid(&self, os_says_valid: bool) -> (r: bool)
        ensures
            r == (self.spec_window() is Some && os_says_valid),
    {
        self.window.is_some() && os_says_valid
    }
}

/// Whether the desktop integration features are available: exactly when
/// the discovery pass found a desktop background window to parent to.
pub fn check_desktop_integration(workerw: Option<i64>) -> (r: bool)
    ensures
        r == (workerw is Some),
{
    workerw.is_some()
}

} // verus!
