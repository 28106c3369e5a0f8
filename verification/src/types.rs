//! Shared data records: the wallpaper description the scheduler consumes,
//! gallery metadata, and plugin metadata.

use vstd::prelude::*;

use crate::config::WallpaperType;

verus! {

/// Wallpaper information for the scheduler and manual-apply flows.
///
/// Paths are carried as plain strings; resolving them against the file
/// system is the surrounding program's job.
#[derive(Debug, Clone)]
pub struct WallpaperInfo {
    /// Wallpaper name.
    pub name: String,
    /// Wallpaper description.
    pub description: String,
    /// Wallpaper author.
    pub author: String,
    /// Wallpaper version.
    pub version: String,
    /// Wallpaper kind.
    pub kind: WallpaperType,
    /// Wallpaper file path (for local files).
    pub path: Option<String>,
    /// Wallpaper URL (for web wallpapers).
    pub url: Option<String>,
}

impl WallpaperInfo {
    /// The field invariant: web wallpapers carry a URL and no path, every
    /// other kind carries a path and no URL.
    pub open spec fn is_well_formed(&self) -> bool {
        match self.kind {
            WallpaperType::Web => self.url is Some && self.path is None,
            _ => self.path is Some && self.url is None,
        }
    }

    /// An exact copy, field for field.
    pub fn duplicate(&self) -> (r: Self)
        ensures
            r == *self,
    {
        WallpaperInfo {
            name: self.name.clone(),
            description: self.description.clone(),
            author: self.author.clone(),
            version: self.version.clone(),
            kind: self.kind,
            path: match &self.path {
                Some(p) => Some(p.clone()),
                None => None,
            },
            url: match &self.url {
                Some(u) => Some(u.clone()),
                None => None,
            },
        }
    }

    /// Check the field invariant.
    pub fn validate(&self) -> (r: bool)
        ensures
            r == self.is_well_formed(),
    {
        match self.kind {
            WallpaperType::Web => self.url.is_some() && self.path.is_none(),
            _ => self.path.is_some() && self.url.is_none(),
        }
    }
}

/// Wallpaper metadata for gallery collections.
#[derive(Debug, Clone)]
pub struct WallpaperMetadata {
    /// Wallpaper name.
    pub name: String,
    /// Wallpaper description.
    pub description: Option<String>,
    /// Wallpaper author.
    pub author: Option<String>,
    /// Wallpaper tags.
    pub tags: Vec<String>,
    /// Wallpaper path.
    pub path: String,
    /// Wallpaper type.
    pub wallpaper_type: WallpaperType,
}

/// Wallpaper collection.
#[derive(Debug, Clone)]
pub struct WallpaperCollection {
    /// Collection name.
    pub name: String,
    /// Collection description.
    pub description: Option<String>,
    /// Collection wallpapers.
    pub wallpapers: Vec<WallpaperMetadata>,
}

/// Plugin metadata.
#[derive(Debug, Clone)]
pub struct PluginMetadata {
    /// Plugin name.
    pub name: String,
    /// Plugin version.
    pub version: String,
    /// Plugin description.
    pub description: Option<String>,
    /// Plugin author.
    pub author: Option<String>,
    /// Plugin entry point.
    pub entry_point: String,
    /// Plugin dependencies.
    pub dependencies: Vec<String>,
}

} // verus!
