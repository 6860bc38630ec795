//! The model of an online wallpaper and the names under which it is stored.
use vstd::prelude::*;
use crate::text::{chars_of, has_suffix, owned, push_chars, push_str, slice_chars, str_ends_with, str_eq, utf8_len, utf8_length, chars_for_bytes, prefix_chars_for_bytes};
use crate::online::cache::{clean_filename, clean_filename_spec, clean_title_filename, clean_title_spec};
use crate::paths::{join, path_join};

verus! {

/// The catalogue an online wallpaper comes from.
#[derive(Debug, Clone, Copy, PartialEq, Eq, Structural)]
pub enum OnlineSource {
    Bing,
    Wallhaven,
    Minimalistic,
    MotionBGS,
}

/// A wallpaper offered by an online catalogue.
#[derive(Debug, Clone, PartialEq, Eq)]
pub struct OnlineWallpaperItem {
    pub id: String,
    pub title: String,
    pub author_or_copyright: String,
    pub thumb_url: String,
    pub full_url: String,
    pub resolution: String,
    pub source: OnlineSource,
    pub date: Option<String>,
}

/// The contents of an online wallpaper item.
pub struct OnlineItemView {
    pub id: Seq<char>,
    pub title: Seq<char>,
    pub author_or_copyright: Seq<char>,
    pub thumb_url: Seq<char>,
    pub full_url: Seq<char>,
    pub resolution: Seq<char>,
    pub source: OnlineSource,
    pub date: Option<Seq<char>>,
}

impl View for OnlineWallpaperItem {
    type V = OnlineItemView;

    open spec fn view(&self) -> OnlineItemView {
        OnlineItemView {
            id: self.id@,
            title: self.title@,
            author_or_copyright: self.author_or_copyright@,
            thumb_url: self.thumb_url@,
            full_url: self.full_url@,
            resolution: self.resolution@,
            source: self.source,
            date: match self.date {
                Some(d) => Some(d@),
                None => None,
            },
        }
    }
}

/// The contents of a list of items.
pub open spec fn items_view(v: Seq<OnlineWallpaperItem>) -> Seq<OnlineItemView> {
    v.map_values(|x: OnlineWallpaperItem| x@)
}

/// The image extension that a URL ends with: `png`, `webp`, else `jpg`.
pub open spec fn url_extension(url: Seq<char>) -> Seq<char> {
    if has_suffix(url, ".png"@) {
        "png"@
    } else if has_suffix(url, ".webp"@) {
        "webp"@
    } else {
        "jpg"@
    }
}

fn url_ext(url: &str) -> (r: &'static str)
    ensures
        r@ == url_extension(url@),
{
    if str_ends_with(url, ".png") {
        "png"
    } else if str_ends_with(url, ".webp") {
        "webp"
    } else {
        "jpg"
    }
}

/// The short name of a source used in file names.
pub open spec fn source_prefix_spec(source: OnlineSource) -> Seq<char> {
    match source {
        OnlineSource::Bing => "bing"@,
        OnlineSource::Wallhaven => "wallhaven"@,
        OnlineSource::Minimalistic => "minimal"@,
        OnlineSource::MotionBGS => "motionbgs"@,
    }
}

/// The title under which a Bing image without a title of its own is shown.
pub open spec fn bing_default_title() -> Seq<char> {
    "Bing Wallpaper"@
}

/// The first eight bytes of an id, or the whole id when it is shorter.
pub open spec fn short_id(id: Seq<char>) -> Seq<char> {
    if utf8_len(id) >= 8 {
        id.take(chars_for_bytes(id, 8)->0)
    } else {
        id
    }
}

/// The file name of a downloaded wallpaper.
pub open spec fn wallpaper_filename_spec(item: OnlineItemView) -> Seq<char> {
    let ext = url_extension(item.full_url);
    match item.source {
        OnlineSource::Bing => {
            let clean = clean_title_spec(item.title);
            if clean == bing_default_title() {
                "Bing Wallpaper - "@ + short_id(item.id) + "."@ + ext
            } else {
                clean + "."@ + ext
            }
        },
        OnlineSource::Minimalistic => {
            let t = clean_title_spec(item.title);
            let a = clean_title_spec(item.author_or_copyright);
            if a.len() != 0 && a != "Minimalist"@ {
                a + " - "@ + t + "."@ + ext
            } else {
                t + "."@ + ext
            }
        },
        _ => clean_filename_spec(source_prefix_spec(item.source), item.id, ext),
    }
}

/// Slicing the first eight bytes of the id is possible: for a Bing image under
/// the default title whose id has at least eight bytes, the eighth byte ends a
/// character.
pub open spec fn short_id_sliceable(item: OnlineItemView) -> bool {
    (item.source == OnlineSource::Bing && clean_title_spec(item.title) == bing_default_title()
        && utf8_len(item.id) >= 8) ==> chars_for_bytes(item.id, 8) is Some
}

impl OnlineWallpaperItem {
    pub fn extension(&self) -> (r: &'static str)
        ensures
            r@ == url_extension(self.full_url@),
    {
        url_ext(self.full_url.as_str())
    }

    pub fn thumb_extension(&self) -> (r: &'static str)
        ensures
            r@ == url_extension(self.thumb_url@),
    {
        url_ext(self.thumb_url.as_str())
    }

    pub fn source_prefix(&self) -> (r: &'static str)
        ensures
            r@ == source_prefix_spec(self.source),
    {
        match self.source {
            OnlineSource::Bing => "bing",
            OnlineSource::Wallhaven => "wallhaven",
            OnlineSource::Minimalistic => "minimal",
            OnlineSource::MotionBGS => "motionbgs",
        }
    }

    pub fn wallpaper_filename(&self) -> (r: String)
        requires
            short_id_sliceable(self@),
        ensures
            r@ == wallpaper_filename_spec(self@),
    {
        let ext = self.extension();
        match self.source {
            OnlineSource::Bing => {
                let clean = clean_title_filename(self.title.as_str());
                if str_eq(clean.as_str(), "Bing Wallpaper") {
                    let idv = chars_of(self.id.as_str());
                    let short = if utf8_length(&idv) >= 8 {
                        let k = prefix_chars_for_bytes(&idv, 8);
                        match k {
                            Some(k) => slice_chars(&idv, 0, k),
                            None => idv.clone(),
                        }
                    } else {
                        idv.clone()
                    };
                    let mut s = owned("Bing Wallpaper - ");
                    push_chars(&mut s, &short);
                    push_str(&mut s, ".");
                    push_str(&mut s, ext);
                    s
                } else {
                    let mut s = clean;
                    push_str(&mut s, ".");
                    push_str(&mut s, ext);
                    s
                }
            },
            OnlineSource::Minimalistic => {
                let t = clean_title_filename(self.title.as_str());
                let a = clean_title_filename(self.author_or_copyright.as_str());
                if a.as_str().is_empty() == false && !str_eq(a.as_str(), "Minimalist") {
                    let mut s = a;
                    push_str(&mut s, " - ");
                    push_str(&mut s, t.as_str());
                    push_str(&mut s, ".");
                    push_str(&mut s, ext);
                    s
                } else {
                    let mut s = t;
                    push_str(&mut s, ".");
                    push_str(&mut s, ext);
                    s
                }
            },
            _ => clean_filename(self.source_prefix(), self.id.as_str(), ext),
        }
    }

    /// Where the wallpaper is stored once downloaded into `dir`.
    pub fn local_wallpaper_path(&self, dir: &str) -> (r: String)
        requires
            short_id_sliceable(self@),
        ensures
            r@ == join(dir@, wallpaper_filename_spec(self@)),
    {
        let name = self.wallpaper_filename();
        path_join(dir, name.as_str())
    }

    /// Where the thumbnail of the wallpaper is cached in `dir`.
    pub fn local_thumb_path(&self, dir: &str) -> (r: String)
        ensures
            r@ == join(dir@, clean_filename_spec(source_prefix_spec(self.source), self.id@, url_extension(self.thumb_url@))),
    {
        let name = clean_filename(self.source_prefix(), self.id.as_str(), self.thumb_extension());
        path_join(dir, name.as_str())
    }
}

} // verus!
