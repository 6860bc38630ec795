//! The wallpaper library: supported file types, library entries and the
//! human-readable size of a file.
pub mod thumbs;
pub mod size;
pub mod collect;

use vstd::prelude::*;
use crate::text::{str_eq, string_of};
use crate::unicode::{lowercase, to_lowercase};
use crate::paths::{extension, path_extension, path_has_base, path_starts_with};

pub use size::format_file_size;

verus! {

/// Video file extensions the library plays.
pub const VIDEO_EXTENSIONS: [&'static str; 5] = ["mp4", "webm", "mkv", "avi", "mov"];

/// Image file extensions the library shows.
pub const IMAGE_EXTENSIONS: [&'static str; 4] = ["jpg", "jpeg", "png", "webp"];

/// A lower-case extension names a video.
pub open spec fn is_video_ext(l: Seq<char>) -> bool {
    l == "mp4"@ || l == "webm"@ || l == "mkv"@ || l == "avi"@ || l == "mov"@
}

/// A lower-case extension names an image.
pub open spec fn is_image_ext(l: Seq<char>) -> bool {
    l == "jpg"@ || l == "jpeg"@ || l == "png"@ || l == "webp"@
}

/// An extension (in any letter case) names a supported wallpaper file.
pub open spec fn supported_ext(ext: Seq<char>) -> bool {
    is_video_ext(lowercase(ext)) || is_image_ext(lowercase(ext))
}

fn video_ext_lower(l: &str) -> (r: bool)
    ensures
        r == is_video_ext(l@),
{
    str_eq(l, "mp4") || str_eq(l, "webm") || str_eq(l, "mkv") || str_eq(l, "avi") || str_eq(l, "mov")
}

fn image_ext_lower(l: &str) -> (r: bool)
    ensures
        r == is_image_ext(l@),
{
    str_eq(l, "jpg") || str_eq(l, "jpeg") || str_eq(l, "png") || str_eq(l, "webp")
}

pub fn is_supported_wallpaper_ext(ext: &str) -> (r: bool)
    ensures
        r == supported_ext(ext@),
{
    let lower = to_lowercase(ext);
    video_ext_lower(lower.as_str()) || image_ext_lower(lower.as_str())
}

/// Whether the extension (in any letter case) names an image.
pub fn is_image_extension(ext: &str) -> (r: bool)
    ensures
        r == is_image_ext(lowercase(ext@)),
{
    let lower = to_lowercase(ext);
    image_ext_lower(lower.as_str())
}

/// Whether a path has an extension that names a video.
pub open spec fn path_is_video(path: Seq<char>) -> bool {
    match extension(path) {
        Some(e) => is_video_ext(lowercase(e)),
        None => false,
    }
}

/// Whether a path has an extension that names an image.
pub open spec fn path_is_image(path: Seq<char>) -> bool {
    match extension(path) {
        Some(e) => is_image_ext(lowercase(e)),
        None => false,
    }
}

/// Whether the file at `path` is a video.
pub fn is_video_path(path: &str) -> (r: bool)
    ensures
        r == path_is_video(path@),
{
    match path_extension(path) {
        Some(e) => {
            let lower = to_lowercase(string_of(&e).as_str());
            video_ext_lower(lower.as_str())
        },
        None => false,
    }
}

/// Whether the file at `path` is an image.
pub fn is_image_path(path: &str) -> (r: bool)
    ensures
        r == path_is_image(path@),
{
    match path_extension(path) {
        Some(e) => {
            let lower = to_lowercase(string_of(&e).as_str());
            image_ext_lower(lower.as_str())
        },
        None => false,
    }
}

/// A wallpaper of the library.
#[derive(Debug, Clone, PartialEq, Eq)]
pub struct VideoItem {
    pub path: String,
    pub name: String,
    pub name_lower: String,
    pub size_formatted: String,
    pub thumb_path: Option<String>,
    pub is_video: bool,
    pub is_downloaded: bool,
}

impl VideoItem {
    /// A library entry for the file at `path`; `online_dir` is the folder of
    /// downloaded wallpapers.
    pub fn new(path: String, name: String, size_formatted: String, thumb_path: Option<String>, online_dir: &str) -> (r: VideoItem)
        ensures
            r.path@ == path@,
            r.name@ == name@,
            r.name_lower@ == lowercase(name@),
            r.size_formatted@ == size_formatted@,
            r.thumb_path == thumb_path,
            r.is_video == path_is_video(path@),
            r.is_downloaded == path_starts_with(path@, online_dir@),
    {
        let is_video = is_video_path(path.as_str());
        let is_downloaded = path_has_base(path.as_str(), online_dir);
        let name_lower = to_lowercase(name.as_str());
        VideoItem { path, name, name_lower, size_formatted, thumb_path, is_video, is_downloaded }
    }

    pub fn is_video(&self) -> (r: bool)
        ensures
            r == self.is_video,
    {
        self.is_video
    }

    pub fn is_image(&self) -> (r: bool)
        ensures
            r == !self.is_video,
    {
        !self.is_video
    }

    pub fn is_downloaded(&self) -> (r: bool)
        ensures
            r == self.is_downloaded,
    {
        self.is_downloaded
    }
}

} // verus!
