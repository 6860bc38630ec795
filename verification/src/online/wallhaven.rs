//! Wallhaven (wallhaven.cc): search parameters and the conversion of search
//! results into online wallpaper items.
use vstd::prelude::*;
use crate::text::{decimal, decimal_string, owned, push_str, str_eq, str_trim, trim};
use crate::online::models::{items_view, OnlineItemView, OnlineSource, OnlineWallpaperItem};
use crate::online::bing::opt_view;

verus! {

/// The thumbnails of a search result.
#[derive(Debug)]
pub struct WallhavenThumbs {
    pub large: Option<String>,
    pub small: Option<String>,
}

/// A search result as it is received.
#[derive(Debug)]
pub struct WallhavenItem {
    pub id: String,
    pub resolution: Option<String>,
    pub path: Option<String>,
    pub thumbs: Option<WallhavenThumbs>,
    pub category: Option<String>,
}

/// The query parameters of a search, in order: categories, purity, sorting,
/// page, resolutions, then `topRange=1M` for the top list and the trimmed
/// query when it is not empty.
pub open spec fn search_params(page: u32, query: Option<Seq<char>>, category: Seq<char>, sorting: Seq<char>) -> Seq<(Seq<char>, Seq<char>)> {
    let base = seq![
        ("categories"@, category),
        ("purity"@, "100"@),
        ("sorting"@, sorting),
        ("page"@, decimal(page as nat)),
        ("resolutions"@, "1920x1080,2560x1440,3840x2160"@),
    ];
    let with_top = if sorting == "toplist"@ { base.push(("topRange"@, "1M"@)) } else { base };
    match query {
        Some(q) => if trim(q).len() != 0 { with_top.push(("q"@, trim(q))) } else { with_top },
        None => with_top,
    }
}

/// The characters of a list of parameter pairs.
pub open spec fn params_view(v: Seq<(String, String)>) -> Seq<(Seq<char>, Seq<char>)> {
    v.map_values(|p: (String, String)| (p.0@, p.1@))
}

pub fn search_query_params(page: u32, query: Option<&str>, category: &str, sorting: &str) -> (r: Vec<(String, String)>)
    ensures
        params_view(r@) == search_params(page, match query { Some(q) => Some(q@), None => None }, category@, sorting@),
{
    let mut params: Vec<(String, String)> = Vec::new();
    params.push((owned("categories"), owned(category)));
    params.push((owned("purity"), owned("100")));
    params.push((owned("sorting"), owned(sorting)));
    params.push((owned("page"), decimal_string(page as u64)));
    params.push((owned("resolutions"), owned("1920x1080,2560x1440,3840x2160")));
    if str_eq(sorting, "toplist") {
        params.push((owned("topRange"), owned("1M")));
    }
    match query {
        Some(q) => {
            let t = str_trim(q);
            if !t.as_str().is_empty() {
                params.push((owned("q"), t));
            }
        },
        None => {},
    }
    proof {
        let qv = match query { Some(q) => Some(q@), None => None };
        assert(params_view(params@) =~= search_params(page, qv, category@, sorting@));
    }
    params
}

/// The thumbnail of a result: the large one, else the small one, else the
/// full image.
pub open spec fn result_thumb(thumbs: Option<(Option<Seq<char>>, Option<Seq<char>>)>, full: Seq<char>) -> Seq<char> {
    match thumbs {
        Some((Some(l), _)) => l,
        Some((None, Some(s))) => s,
        _ => full,
    }
}

/// The thumbnails of a result as plain values.
pub open spec fn thumbs_view(t: Option<WallhavenThumbs>) -> Option<(Option<Seq<char>>, Option<Seq<char>>)> {
    match t {
        Some(t) => Some((opt_view(t.large), opt_view(t.small))),
        None => None,
    }
}

/// The item of a result with a non-empty image path.
pub open spec fn wallhaven_item(id: Seq<char>, resolution: Option<Seq<char>>, full: Seq<char>,
    thumbs: Option<(Option<Seq<char>>, Option<Seq<char>>)>, category: Option<Seq<char>>) -> OnlineItemView
{
    OnlineItemView {
        id: id,
        title: "Artwork #"@ + id,
        author_or_copyright: "Wallhaven ("@ + match category { Some(c) => c, None => "Artwork"@ } + ")"@,
        thumb_url: result_thumb(thumbs, full),
        full_url: full,
        resolution: match resolution { Some(r) => r, None => "High Resolution"@ },
        source: OnlineSource::Wallhaven,
        date: None,
    }
}

/// The item of a search result; `None` when it has no image path.
pub open spec fn wallhaven_result_item(e: WallhavenItem) -> Option<OnlineItemView> {
    match e.path {
        Some(p) => if p@.len() != 0 {
            Some(wallhaven_item(e.id@, opt_view(e.resolution), p@, thumbs_view(e.thumbs), opt_view(e.category)))
        } else {
            None
        },
        None => None,
    }
}

/// Converts a search result into an item, skipping one without image path.
pub fn convert_wallhaven_item(e: &WallhavenItem) -> (r: Option<OnlineWallpaperItem>)
    ensures
        match wallhaven_result_item(*e) {
            Some(v) => r is Some && r->0@ == v,
            None => r is None,
        },
{
    let full = match &e.path {
        Some(p) => {
            if p.as_str().is_empty() {
                return None;
            }
            p.clone()
        },
        None => return None,
    };
    let thumb = match &e.thumbs {
        Some(t) => match &t.large {
            Some(l) => l.clone(),
            None => match &t.small {
                Some(s) => s.clone(),
                None => full.clone(),
            },
        },
        None => full.clone(),
    };
    let mut title = owned("Artwork #");
    push_str(&mut title, e.id.as_str());
    let mut author = owned("Wallhaven (");
    match &e.category {
        Some(c) => push_str(&mut author, c.as_str()),
        None => push_str(&mut author, "Artwork"),
    }
    push_str(&mut author, ")");
    let resolution = match &e.resolution {
        Some(r) => r.clone(),
        None => owned("High Resolution"),
    };
    Some(OnlineWallpaperItem {
        id: e.id.clone(),
        title,
        author_or_copyright: author,
        thumb_url: thumb,
        full_url: full,
        resolution,
        source: OnlineSource::Wallhaven,
        date: None,
    })
}

/// The items of the results that have an image path, in order.
pub open spec fn wallhaven_items_spec(data: Seq<WallhavenItem>) -> Seq<OnlineItemView>
    decreases data.len(),
{
    if data.len() == 0 {
        seq![]
    } else {
        let init = wallhaven_items_spec(data.drop_last());
        match wallhaven_result_item(data.last()) {
            Some(v) => init.push(v),
            None => init,
        }
    }
}

/// The items of a search response: an error when no result has an image.
pub fn wallhaven_items(data: &Vec<WallhavenItem>) -> (r: Result<Vec<OnlineWallpaperItem>, String>)
    ensures
        match r {
            Ok(v) => items_view(v@) == wallhaven_items_spec(data@) && v@.len() > 0,
            Err(e) => wallhaven_items_spec(data@).len() == 0 && e@ == "No wallpapers found on Wallhaven at this time."@,
        },
{
    let mut items: Vec<OnlineWallpaperItem> = Vec::new();
    proof {
        assert(data@.take(0) =~= Seq::<WallhavenItem>::empty());
        assert(items_view(items@) =~= Seq::<OnlineItemView>::empty());
    }
    for k in 0..data.len()
        invariant
            items_view(items@) == wallhaven_items_spec(data@.take(k as int)),
    {
        let ghost t0 = data@.take(k as int);
        proof {
            assert(data@.take(k + 1).drop_last() =~= t0);
            assert(data@.take(k + 1).last() == data@[k as int]);
        }
        match convert_wallhaven_item(&data[k]) {
            Some(it) => {
                items.push(it);
            },
            None => {},
        }
        proof {
            assert(items_view(items@) =~= wallhaven_items_spec(data@.take(k + 1)));
        }
    }
    proof {
        assert(data@.take(data@.len() as int) =~= data@);
    }
    if items.len() == 0 {
        Err(owned("No wallpapers found on Wallhaven at this time."))
    } else {
        Ok(items)
    }
}

} // verus!
