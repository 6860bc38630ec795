//! Bing image of the day: turning an entry of the image archive into an
//! online wallpaper item.
use vstd::prelude::*;
use crate::text::{
    chars_for_bytes, str_eq, chars_of, owned, prefix_chars_for_bytes, push_chars, push_str, replace_all,
    replace_chars, slice_chars, string_of, strip_prefix_all, trim, trim_chars, trim_start_matches,
    utf8_len, utf8_length,
};
use crate::paths::{split_chars, split_on};
use crate::online::models::{items_view, OnlineItemView, OnlineSource, OnlineWallpaperItem};

verus! {

/// An entry of the Bing image archive as it is received.
#[derive(Debug)]
pub struct BingImage {
    pub urlbase: Option<String>,
    pub copyright: Option<String>,
    pub title: Option<String>,
    pub startdate: Option<String>,
    pub hsh: Option<String>,
}

/// The characters of an optional string.
pub open spec fn opt_view(o: Option<String>) -> Option<Seq<char>> {
    match o {
        Some(s) => Some(s@),
        None => None,
    }
}

/// The title taken from the image path when the entry has none: the second
/// dot-separated piece of the path with `_` read as spaces, else
/// `Bing Wallpaper`.
pub open spec fn title_from_urlbase(urlbase: Seq<char>) -> Seq<char> {
    let pieces = split_on(urlbase, '.');
    let t = if pieces.len() > 1 { pieces[1] } else { "Bing Wallpaper"@ };
    replace_all(t, "_"@, " "@)
}

/// The date `YYYYMMDD` written `YYYY-MM-DD`, for an eight-byte start date.
pub open spec fn bing_date(sd: Seq<char>) -> Option<Seq<char>> {
    if utf8_len(sd) == 8 {
        let a = chars_for_bytes(sd, 4)->0;
        let b = chars_for_bytes(sd, 6)->0;
        Some(sd.subrange(0, a) + "-"@ + sd.subrange(a, b) + "-"@ + sd.subrange(b, sd.len() as int))
    } else {
        None
    }
}

/// Slicing an eight-byte start date at bytes 4 and 6 falls on characters.
pub open spec fn date_sliceable(sd: Option<Seq<char>>) -> bool {
    match sd {
        Some(s) => utf8_len(s) == 8 ==> chars_for_bytes(s, 4) is Some && chars_for_bytes(s, 6) is Some,
        None => true,
    }
}

/// The item of an archive entry.
pub open spec fn bing_item(urlbase: Seq<char>, copyright: Option<Seq<char>>, title: Option<Seq<char>>,
    startdate: Option<Seq<char>>, hsh: Option<Seq<char>>) -> OnlineItemView
{
    OnlineItemView {
        id: match hsh {
            Some(h) => h,
            None => strip_prefix_all(urlbase, "/th?id="@),
        },
        title: match title {
            Some(t) => if trim(t).len() != 0 { t } else { title_from_urlbase(urlbase) },
            None => title_from_urlbase(urlbase),
        },
        author_or_copyright: match copyright {
            Some(c) => c,
            None => "Microsoft Bing"@,
        },
        thumb_url: "https://www.bing.com"@ + urlbase + "_1920x1080.jpg&pid=hp&w=480&h=270&rs=1&c=4"@,
        full_url: "https://www.bing.com"@ + urlbase + "_UHD.jpg"@,
        resolution: "3840x2160 (4K UHD)"@,
        source: OnlineSource::Bing,
        date: match startdate {
            Some(sd) => bing_date(sd),
            None => None,
        },
    }
}

fn urlbase_title(urlbase: &Vec<char>) -> (r: String)
    ensures
        r@ == title_from_urlbase(urlbase@),
{
    let pieces = split_chars(urlbase, '.');
    let t = if pieces.len() > 1 { pieces[1].clone() } else { chars_of("Bing Wallpaper") };
    let r = replace_chars(&t, &chars_of("_"), &chars_of(" "));
    string_of(&r)
}

/// Converts an archive entry into an online wallpaper item; `None` when the
/// entry has no image path.
pub fn convert_bing_image(img: BingImage) -> (r: Option<OnlineWallpaperItem>)
    requires
        date_sliceable(opt_view(img.startdate)),
    ensures
        match img.urlbase {
            None => r is None,
            Some(u) => r is Some && r->0@ == bing_item(u@, opt_view(img.copyright), opt_view(img.title),
                opt_view(img.startdate), opt_view(img.hsh)),
        },
{
    let urlbase = match img.urlbase {
        Some(u) => u,
        None => return None,
    };
    let uv = chars_of(urlbase.as_str());
    let id = match img.hsh {
        Some(h) => h,
        None => string_of(&trim_start_matches(&uv, &chars_of("/th?id="))),
    };
    let title = match img.title {
        Some(t) => {
            let tt = trim_chars(&chars_of(t.as_str()));
            if tt.len() != 0 { t } else { urlbase_title(&uv) }
        },
        None => urlbase_title(&uv),
    };
    let copyright = match img.copyright {
        Some(c) => c,
        None => owned("Microsoft Bing"),
    };
    let date = match img.startdate {
        Some(sd) => {
            let sv = chars_of(sd.as_str());
            if utf8_length(&sv) == 8 {
                let a = prefix_chars_for_bytes(&sv, 4);
                let b = prefix_chars_for_bytes(&sv, 6);
                match (a, b) {
                    (Some(a), Some(b)) => {
                        proof {
                            crate::text::lemma_utf8_len_mono(sv@, 0, 0);
                            lemma_prefix_order(sv@, a as int, b as int);
                        }
                        let mut s = string_of(&slice_chars(&sv, 0, a));
                        push_str(&mut s, "-");
                        push_chars(&mut s, &slice_chars(&sv, a, b));
                        push_str(&mut s, "-");
                        push_chars(&mut s, &slice_chars(&sv, b, sv.len()));
                        Some(s)
                    },
                    _ => None,
                }
            } else {
                None
            }
        },
        None => None,
    };
    let mut thumb = owned("https://www.bing.com");
    push_str(&mut thumb, urlbase.as_str());
    push_str(&mut thumb, "_1920x1080.jpg&pid=hp&w=480&h=270&rs=1&c=4");
    let mut full = owned("https://www.bing.com");
    push_str(&mut full, urlbase.as_str());
    push_str(&mut full, "_UHD.jpg");
    Some(OnlineWallpaperItem {
        id,
        title,
        author_or_copyright: copyright,
        thumb_url: thumb,
        full_url: full,
        resolution: owned("3840x2160 (4K UHD)"),
        source: OnlineSource::Bing,
        date,
    })
}

/// The four-byte prefix is no longer than the six-byte one.
proof fn lemma_prefix_order(s: Seq<char>, a: int, b: int)
    requires
        0 <= a <= s.len(),
        0 <= b <= s.len(),
        utf8_len(s.take(a)) == 4,
        utf8_len(s.take(b)) == 6,
    ensures
        a <= b,
{
    if a > b {
        crate::text::lemma_utf8_len_mono(s, b, a);
    }
}


/// The item of an archive entry, when it has an image path.
pub open spec fn bing_entry(img: BingImage) -> Option<OnlineItemView> {
    match img.urlbase {
        Some(u) => Some(bing_item(u@, opt_view(img.copyright), opt_view(img.title),
            opt_view(img.startdate), opt_view(img.hsh))),
        None => None,
    }
}

/// Every entry of a page can have its start date sliced.
pub open spec fn page_sliceable(imgs: Seq<BingImage>) -> bool {
    forall|i: int| 0 <= i < imgs.len() ==> date_sliceable(opt_view(#[trigger] imgs[i].startdate))
}

/// Whether an item of `items` has the identifier `id`.
pub open spec fn has_id(items: Seq<OnlineItemView>, id: Seq<char>) -> bool {
    exists|k: int| 0 <= k < items.len() && items[k].id == id
}

/// The items of the entries of a page, in order, entries without an image
/// path left out.
pub open spec fn bing_page_items(imgs: Seq<BingImage>) -> Seq<OnlineItemView>
    decreases imgs.len(),
{
    if imgs.len() == 0 {
        seq![]
    } else {
        let prev = bing_page_items(imgs.drop_last());
        match bing_entry(imgs.last()) {
            Some(v) => prev.push(v),
            None => prev,
        }
    }
}

/// `items` followed by the items of a further page whose identifier is not
/// yet among them.
pub open spec fn bing_merge_page(items: Seq<OnlineItemView>, imgs: Seq<BingImage>) -> Seq<OnlineItemView>
    decreases imgs.len(),
{
    if imgs.len() == 0 {
        items
    } else {
        let prev = bing_merge_page(items, imgs.drop_last());
        match bing_entry(imgs.last()) {
            Some(v) => if has_id(prev, v.id) { prev } else { prev.push(v) },
            None => prev,
        }
    }
}

/// The wallpapers of the two archive pages: all of the first, then those of
/// the second whose identifier is new.
pub open spec fn bing_wallpapers(page1: Option<Seq<BingImage>>, page2: Option<Seq<BingImage>>) -> Seq<OnlineItemView> {
    let first = match page1 {
        Some(p) => bing_page_items(p),
        None => seq![],
    };
    match page2 {
        Some(p) => bing_merge_page(first, p),
        None => first,
    }
}

/// The message given when neither page yields a wallpaper.
pub open spec fn bing_empty_message() -> Seq<char> {
    "Could not load wallpapers from Bing. Check your internet connection."@
}

fn has_item_id(items: &Vec<OnlineWallpaperItem>, id: &str) -> (r: bool)
    ensures
        r == has_id(items_view(items@), id@),
{
    let mut i: usize = 0;
    while i < items.len()
        invariant
            i <= items.len(),
            forall|k: int| 0 <= k < i ==> items@[k].id@ != id@,
        decreases items.len() - i,
    {
        if str_eq(items[i].id.as_str(), id) {
            proof {
                assert(items_view(items@)[i as int].id == id@);
            }
            return true;
        }
        i += 1;
    }
    proof {
        assert forall|k: int| 0 <= k < items_view(items@).len() implies items_view(items@)[k].id != id@ by {
            assert(items_view(items@)[k] == items@[k]@);
        }
    }
    false
}

/// Appends the items of a page to `items`; with `dedup`, only those whose
/// identifier is not yet there.
fn add_page(items: &mut Vec<OnlineWallpaperItem>, page: Vec<BingImage>, dedup: bool)
    requires
        page_sliceable(page@),
    ensures
        items_view(final(items)@) == (if dedup { bing_merge_page(items_view(old(items)@), page@) } else {
            items_view(old(items)@) + bing_page_items(page@) }),
{
    let ghost start = items_view(items@);
    let ghost all = page@;
    let mut page = page;
    let mut k: usize = 0;
    proof {
        assert(all.len() == page.len());
    }
    while page.len() > 0
        invariant
            page@ == all.skip(k as int),
            all.len() <= usize::MAX,
            k <= all.len(),
            page_sliceable(all),
            items_view(items@) == (if dedup { bing_merge_page(start, all.take(k as int)) } else {
                start + bing_page_items(all.take(k as int)) }),
        decreases page.len(),
    {
        proof {
            assert(page@.len() == all.len() - k);
        }
        let img = page.remove(0);
        proof {
            assert(img == all[k as int]);
            assert(all.take(k + 1).drop_last() =~= all.take(k as int));
            assert(all.take(k + 1).last() == all[k as int]);
            assert(all.skip(k + 1) =~= all.skip(k as int).remove(0));
        }
        let ghost before = items_view(items@);
        match convert_bing_image(img) {
            Some(item) => {
                if !dedup || !has_item_id(items, item.id.as_str()) {
                    items.push(item);
                    proof {
                        assert(items_view(items@) =~= before.push(item@));
                        if !dedup {
                            assert(start + bing_page_items(all.take(k + 1)) =~= (start + bing_page_items(all.take(k as int))).push(item@));
                        }
                    }
                }
            },
            None => {},
        }
        k += 1;
    }
    proof {
        assert(all.take(k as int) =~= all);
    }
}

/// Gathers the wallpapers of the two archive pages: every entry of the first
/// page, then the entries of the second whose identifier is new. A page is
/// `None` where it could not be fetched or read. Without any wallpaper, the
/// result is the error message.
pub fn bing_items(page1: Option<Vec<BingImage>>, page2: Option<Vec<BingImage>>) -> (r: Result<Vec<OnlineWallpaperItem>, String>)
    requires
        page1 matches Some(p) ==> page_sliceable(p@),
        page2 matches Some(p) ==> page_sliceable(p@),
    ensures
        ({
            let want = bing_wallpapers(
                match page1 { Some(p) => Some(p@), None => None },
                match page2 { Some(p) => Some(p@), None => None });
            match r {
                Ok(v) => want.len() > 0 && items_view(v@) == want,
                Err(e) => want.len() == 0 && e@ == bing_empty_message(),
            }
        }),
{
    let mut items: Vec<OnlineWallpaperItem> = Vec::new();
    proof {
        assert(items_view(items@) =~= seq![]);
    }
    match page1 {
        Some(p) => {
            add_page(&mut items, p, false);
            proof {
                assert(seq![] + bing_page_items(p@) =~= bing_page_items(p@));
            }
        },
        None => {},
    }
    match page2 {
        Some(p) => add_page(&mut items, p, true),
        None => {},
    }
    if items.len() == 0 {
        return Err(owned("Could not load wallpapers from Bing. Check your internet connection."));
    }
    Ok(items)
}

} // verus!
