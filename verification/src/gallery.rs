//! The wallpaper gallery: items, selection, and the file-name rules that
//! classify assets.
//!
//! Reading directories and drawing the gallery belong to the surrounding
//! program; what lives here is the item records built from paths and URLs,
//! the selection logic, and the extension rules, each with an exact
//! contract. File names are split at the last path separator, and an
//! extension is what follows a last dot that is not the name's first
//! character; extensions are matched up to ASCII case.

use vstd::prelude::*;
use vstd::string::*;

use crate::config::WallpaperType;
use crate::text::{
    find_last_char, lemma_last_index_unique, spec_eq_ignore_case, spec_has_char,
    spec_last_index_of, str_eq_ignore_case,
};
use crate::wallpapers::ActiveWallpaper;

verus! {

/// The file-name part of a path: what follows the last separator.
pub open spec fn spec_file_name(path: Seq<char>) -> Seq<char> {
    if spec_has_char(path, '/') {
        path.skip(spec_last_index_of(path, '/') + 1)
    } else {
        path
    }
}

/// A file name split into its stem and its extension. The extension is
/// what follows the last dot, provided that dot is not the first
/// character; a name without one has an empty extension.
pub open spec fn spec_stem_ext(name: Seq<char>) -> (Seq<char>, Seq<char>) {
    if spec_has_char(name, '.') && spec_last_index_of(name, '.') >= 1 {
        (
            name.take(spec_last_index_of(name, '.')),
            name.skip(spec_last_index_of(name, '.') + 1),
        )
    } else {
        (name, Seq::empty())
    }
}

/// Split a path into its file name, the file name's stem, and its
/// extension.
fn split_stem_ext(path: &str) -> (r: (String, String, String))
    ensures
        r.0@ == spec_file_name(path@),
        r.1@ == spec_stem_ext(spec_file_name(path@)).0,
        r.2@ == spec_stem_ext(spec_file_name(path@)).1,
{
    let plen = path.unicode_len();
    let start = match find_last_char(path, '/') {
        Some(i) => {
            proof {
                lemma_last_index_unique(path@, '/', i as int);
            }
            i + 1
        },
        None => 0,
    };
    let name = path.substring_char(start, plen);
    proof {
        assert(name@ =~= spec_file_name(path@));
    }
    let nlen = name.unicode_len();
    match find_last_char(name, '.') {
        Some(d) => {
            proof {
                lemma_last_index_unique(name@, '.', d as int);
            }
            if d >= 1 {
                let stem = name.substring_char(0, d).to_owned();
                let ext = name.substring_char(d + 1, nlen).to_owned();
                proof {
                    assert(stem@ =~= name@.take(d as int));
                    assert(ext@ =~= name@.skip(d + 1));
                }
                (name.to_owned(), stem, ext)
            } else {
                proof {
                    reveal_strlit("");
                    assert(""@ =~= Seq::<char>::empty());
                }
                (name.to_owned(), name.to_owned(), "".to_owned())
            }
        },
        None => {
            proof {
                assert(!spec_has_char(name@, '.'));
                reveal_strlit("");
                assert(""@ =~= Seq::<char>::empty());
            }
            (name.to_owned(), name.to_owned(), "".to_owned())
        },
    }
}

/// Information about a wallpaper in the gallery.
#[derive(Debug, Clone)]
pub struct GalleryItem {
    /// Name of the wallpaper.
    pub name: String,
    /// Description of the wallpaper.
    pub description: String,
    /// Path to the wallpaper file.
    pub path: Option<String>,
    /// URL for web wallpapers.
    pub url: Option<String>,
    /// Type of wallpaper.
    pub wallpaper_type: WallpaperType,
    /// Thumbnail path, when one has been generated.
    pub thumbnail_path: Option<String>,
    /// Author of the wallpaper.
    pub author: String,
    /// Version of the wallpaper.
    pub version: String,
}

impl GalleryItem {
    /// Create a new gallery item from a path: the name is the file name's
    /// stem (or a placeholder for an empty name), the description names
    /// the kind and the extension.
    pub fn from_path(path: String, wallpaper_type: WallpaperType) -> (r: Self)
        ensures
            r.name@ == (if spec_file_name(path@).len() == 0 {
                "Unknown"@
            } else {
                spec_stem_ext(spec_file_name(path@)).0
            }),
            r.description@ == wallpaper_type.spec_str() + " wallpaper ("@ + spec_stem_ext(
                spec_file_name(path@),
            ).1 + ")"@,
            r.path matches Some(p) && p@ == path@,
            r.url is None,
            r.wallpaper_type == wallpaper_type,
            r.thumbnail_path is None,
            r.author@ == "Unknown"@,
            r.version@ == "1.0.0"@,
    {
        let (fname, stem, ext) = split_stem_ext(path.as_str());
        let name = if fname.as_str().unicode_len() == 0 {
            "Unknown".to_owned()
        } else {
            stem
        };
        let description = wallpaper_type.as_str().to_owned().concat(" wallpaper (").concat(
            ext.as_str(),
        ).concat(")");
        GalleryItem {
            name,
            description,
            path: Some(path),
            url: None,
            wallpaper_type,
            thumbnail_path: None,
            author: "Unknown".to_owned(),
            version: "1.0.0".to_owned(),
        }
    }

    /// Create a new gallery item from a URL.
    pub fn from_url(url: String, wallpaper_type: WallpaperType) -> (r: Self)
        ensures
            r.name@ == url@,
            r.description@ == "Web wallpaper: "@ + url@,
            r.path is None,
            r.url matches Some(u) && u@ == url@,
            r.wallpaper_type == wallpaper_type,
            r.thumbnail_path is None,
            r.author@ == "Unknown"@,
            r.version@ == "1.0.0"@,
    {
        let name = url.clone();
        let description = "Web wallpaper: ".to_owned().concat(url.as_str());
        GalleryItem {
            name,
            description,
            path: None,
            url: Some(url),
            wallpaper_type,
            thumbnail_path: None,
            author: "Unknown".to_owned(),
            version: "1.0.0".to_owned(),
        }
    }
}

/// Whether an extension (compared up to ASCII case) is accepted for a
/// wallpaper kind. Web wallpapers are URLs, not files: no extension is
/// accepted.
pub open spec fn spec_valid_extension(ext: Seq<char>, t: WallpaperType) -> bool {
    match t {
        WallpaperType::Static => spec_eq_ignore_case(ext, "png"@) || spec_eq_ignore_case(
            ext,
            "jpg"@,
        ) || spec_eq_ignore_case(ext, "jpeg"@) || spec_eq_ignore_case(ext, "bmp"@)
            || spec_eq_ignore_case(ext, "gif"@),
        WallpaperType::Video => spec_eq_ignore_case(ext, "mp4"@) || spec_eq_ignore_case(
            ext,
            "webm"@,
        ) || spec_eq_ignore_case(ext, "avi"@) || spec_eq_ignore_case(ext, "mkv"@)
            || spec_eq_ignore_case(ext, "mov"@) || spec_eq_ignore_case(ext, "wmv"@),
        WallpaperType::Web => false,
        WallpaperType::Shader => spec_eq_ignore_case(ext, "glsl"@) || spec_eq_ignore_case(
            ext,
            "frag"@,
        ) || spec_eq_ignore_case(ext, "vert"@) || spec_eq_ignore_case(ext, "shader"@),
        WallpaperType::Audio => spec_eq_ignore_case(ext, "glsl"@) || spec_eq_ignore_case(
            ext,
            "frag"@,
        ) || spec_eq_ignore_case(ext, "vert"@) || spec_eq_ignore_case(ext, "shader"@),
    }
}

/// Gallery view state: the available wallpapers and the selection.
#[derive(Debug, Clone)]
pub struct GalleryView {
    /// Available wallpapers.
    wallpapers: Vec<GalleryItem>,
    /// Selected wallpaper index.
    selected_index: Option<usize>,
}

impl GalleryView {
    /// The wallpapers, in gallery order.
    pub closed spec fn spec_wallpapers(&self) -> Seq<GalleryItem> {
        self.wallpapers@
    }

    /// The selected index, if any.
    pub closed spec fn spec_selected(&self) -> Option<usize> {
        self.selected_index
    }

    /// Create a new, empty gallery view.
    pub fn new() -> (r: Self)
        ensures
            r.spec_wallpapers().len() == 0,
            r.spec_selected() is None,
    {
        GalleryView { wallpapers: Vec::new(), selected_index: None }
    }

    /// Add a wallpaper to the gallery.
    pub fn add_wallpaper(&mut self, item: GalleryItem)
        ensures
            final(self).spec_wallpapers() == old(self).spec_wallpapers().push(item),
            final(self).spec_selected() == old(self).spec_selected(),
    {
        self.wallpapers.push(item);
    }

    /// Remove the wallpaper at an index, handing it back; an out-of-range
    /// index removes nothing.
    pub fn remove_wallpaper(&mut self, index: usize) -> (r: Option<GalleryItem>)
        ensures
            final(self).spec_selected() == old(self).spec_selected(),
            match r {
                Some(item) => (index as int) < old(self).spec_wallpapers().len() && item == old(self).spec_wallpapers()[index as int] && final(self).spec_wallpapers() == old(self).spec_wallpapers().remove(index as int),
                None => (index as int) >= old(self).spec_wallpapers().len() && final(self).spec_wallpapers() == old(self).spec_wallpapers(),
            },
    {
        if index < self.wallpapers.len() {
            Some(self.wallpapers.remove(index))
        } else {
            None
        }
    }

    /// Select the wallpaper at an index; an out-of-range index clears the
    /// selection.
    pub fn select_wallpaper(&mut self, index: usize)
        ensures
            final(self).spec_wallpapers() == old(self).spec_wallpapers(),
            final(self).spec_selected() == (if (index as int) < old(self).spec_wallpapers().len() {
                Some(index)
            } else {
                None::<usize>
            }),
    {
        if index < self.wallpapers.len() {
            self.selected_index = Some(index);
        } else {
            self.selected_index = None;
        }
    }

    /// The selected wallpaper, when the selection points at one.
    pub fn get_selected_wallpaper(&self) -> (r: Option<&GalleryItem>)
        ensures
            match r {
                Some(item) => self.spec_selected() matches Some(i) && (i as int)
                    < self.spec_wallpapers().len() && *item == self.spec_wallpapers()[i as int],
                None => match self.spec_selected() {
                    Some(i) => (i as int) >= self.spec_wallpapers().len(),
                    None => true,
                },
            },
    {
        match self.selected_index {
            Some(i) => {
                if i < self.wallpapers.len() {
                    Some(&self.wallpapers[i])
                } else {
                    None
                }
            },
            None => None,
        }
    }

    /// Plan applying the selected wallpaper: the backend descriptor for
    /// its kind, rejected when nothing is selected, the selection is
    /// stale, or the item misses the field its kind requires.
    pub fn apply_selected_plan(&self) -> (r: Result<ActiveWallpaper, String>)
        ensures
            match self.spec_selected() {
                None => r matches Err(m) && m@ == "No wallpaper selected"@,
                Some(i) => {
                    if i as int >= self.spec_wallpapers().len() {
                        r matches Err(m) && m@ == "Selected wallpaper not found"@
                    } else {
                        let item = self.spec_wallpapers()[i as int];
                        match item.wallpaper_type {
                            WallpaperType::Web => match item.url {
                                Some(u) => r matches Ok(a) && a.kind == WallpaperType::Web
                                    && a.source@ == u@ && a.pid is None,
                                None => r matches Err(m) && m@
                                    == "Web wallpaper requires a URL"@,
                            },
                            _ => match item.path {
                                Some(p) => r matches Ok(a) && a.kind == item.wallpaper_type
                                    && a.source@ == p@ && a.pid is None,
                                None => r matches Err(m) && m@ == spec_requires_path_error(
                                    item.wallpaper_type,
                                ),
                            },
                        }
                    }
                },
            },
    {
        let i = match self.selected_index {
            Some(i) => i,
            None => {
                return Err("No wallpaper selected".to_owned());
            },
        };
        if i >= self.wallpapers.len() {
            return Err("Selected wallpaper not found".to_owned());
        }
        let item = &self.wallpapers[i];
        match item.wallpaper_type {
            WallpaperType::Web => match &item.url {
                Some(u) => Ok(
                    ActiveWallpaper { kind: WallpaperType::Web, source: u.clone(), pid: None },
                ),
                None => Err("Web wallpaper requires a URL".to_owned()),
            },
            WallpaperType::Static => match &item.path {
                Some(p) => Ok(
                    ActiveWallpaper { kind: item.wallpaper_type, source: p.clone(), pid: None },
                ),
                None => Err("Static wallpaper requires a path".to_owned()),
            },
            WallpaperType::Video => match &item.path {
                Some(p) => Ok(
                    ActiveWallpaper { kind: item.wallpaper_type, source: p.clone(), pid: None },
                ),
                None => Err("Video wallpaper requires a path".to_owned()),
            },
            WallpaperType::Shader => match &item.path {
                Some(p) => Ok(
                    ActiveWallpaper { kind: item.wallpaper_type, source: p.clone(), pid: None },
                ),
                None => Err("Shader wallpaper requires a path".to_owned()),
            },
            WallpaperType::Audio => match &item.path {
                Some(p) => Ok(
                    ActiveWallpaper { kind: item.wallpaper_type, source: p.clone(), pid: None },
                ),
                None => Err("Audio wallpaper requires a path".to_owned()),
            },
        }
    }

    /// Whether a file's extension is accepted for a wallpaper kind.
    pub fn is_valid_extension(&self, path: &str, wallpaper_type: &WallpaperType) -> (r: bool)
        ensures
            r == spec_valid_extension(
                spec_stem_ext(spec_file_name(path@)).1,
                *wallpaper_type,
            ),
    {
        let (_, _, ext) = split_stem_ext(path);
        let e = ext.as_str();
        match wallpaper_type {
            WallpaperType::Static => str_eq_ignore_case(e, "png") || str_eq_ignore_case(e, "jpg")
                || str_eq_ignore_case(e, "jpeg") || str_eq_ignore_case(e, "bmp")
                || str_eq_ignore_case(e, "gif"),
            WallpaperType::Video => str_eq_ignore_case(e, "mp4") || str_eq_ignore_case(e, "webm")
                || str_eq_ignore_case(e, "avi") || str_eq_ignore_case(e, "mkv")
                || str_eq_ignore_case(e, "mov") || str_eq_ignore_case(e, "wmv"),
            WallpaperType::Web => false,
            WallpaperType::Shader => str_eq_ignore_case(e, "glsl") || str_eq_ignore_case(
                e,
                "frag",
            ) || str_eq_ignore_case(e, "vert") || str_eq_ignore_case(e, "shader"),
            WallpaperType::Audio => str_eq_ignore_case(e, "glsl") || str_eq_ignore_case(e, "frag")
                || str_eq_ignore_case(e, "vert") || str_eq_ignore_case(e, "shader"),
        }
    }

    /// Classify a file by its extension: image, video or shader, with
    /// image as the fallback for anything unrecognized.
    pub fn determine_wallpaper_type(&self, path: &str) -> (r: WallpaperType)
        ensures
            r == spec_determine_wallpaper_type(spec_stem_ext(spec_file_name(path@)).1),
    {
        let (_, _, ext) = split_stem_ext(path);
        let e = ext.as_str();
        if str_eq_ignore_case(e, "png") || str_eq_ignore_case(e, "jpg") || str_eq_ignore_case(
            e,
            "jpeg",
        ) || str_eq_ignore_case(e, "bmp") || str_eq_ignore_case(e, "gif") {
            WallpaperType::Static
        } else if str_eq_ignore_case(e, "mp4") || str_eq_ignore_case(e, "webm")
            || str_eq_ignore_case(e, "avi") || str_eq_ignore_case(e, "mkv") || str_eq_ignore_case(
            e,
            "mov",
        ) || str_eq_ignore_case(e, "wmv") {
            WallpaperType::Video
        } else if str_eq_ignore_case(e, "glsl") || str_eq_ignore_case(e, "frag")
            || str_eq_ignore_case(e, "vert") || str_eq_ignore_case(e, "shader") {
            WallpaperType::Shader
        } else {
            WallpaperType::Static
        }
    }
}

/// The message reported when an item misses the path its kind requires.
pub open spec fn spec_requires_path_error(t: WallpaperType) -> Seq<char> {
    match t {
        WallpaperType::Static => "Static wallpaper requires a path"@,
        WallpaperType::Video => "Video wallpaper requires a path"@,
        WallpaperType::Web => "Web wallpaper requires a URL"@,
        WallpaperType::Shader => "Shader wallpaper requires a path"@,
        WallpaperType::Audio => "Audio wallpaper requires a path"@,
    }
}

/// The classification of an extension: image, video or shader formats,
/// with the image kind as the fallback.
pub open spec fn spec_determine_wallpaper_type(ext: Seq<char>) -> WallpaperType {
    if spec_valid_extension(ext, WallpaperType::Static) {
        WallpaperType::Static
    } else if spec_valid_extension(ext, WallpaperType::Video) {
        WallpaperType::Video
    } else if spec_valid_extension(ext, WallpaperType::Shader) {
        WallpaperType::Shader
    } else {
        WallpaperType::Static
    }
}

} // verus!
