//! The minimalistic wallpaper collection: titles and authors read from file
//! names, and catalogue entries turned into online wallpaper items.
use vstd::prelude::*;
use crate::text::{
    append_vec, chars_for_bytes, chars_of, has_prefix, join_chars, join_with, owned, prefix_chars_for_bytes,
    push_decimal, push_str, replace_all, replace_chars, slice_chars, split_whitespace, starts_with, str_eq,
    str_replace, string_of, words,
};
use crate::unicode::{char_to_uppercase, lowercase, to_lowercase, uppercase_of_char};
use crate::paths::{file_stem, path_file_stem};
use crate::online::models::{items_view, OnlineItemView, OnlineSource, OnlineWallpaperItem};

verus! {

/// An entry of the collection's catalogue.
#[derive(Debug)]
pub struct MinimalRawEntry {
    pub name: String,
    pub path: Option<String>,
    pub download_url: String,
    pub size: Option<u64>,
}

/// A word with its first character in upper case.
pub open spec fn capitalize_word(w: Seq<char>) -> Seq<char> {
    if w.len() == 0 {
        seq![]
    } else {
        uppercase_of_char(w[0]) + w.skip(1)
    }
}

/// The words of `s`, each capitalised, joined by single spaces.
pub open spec fn capitalize_words_spec(s: Seq<char>) -> Seq<char> {
    join_with(words(s).map_values(|w: Seq<char>| capitalize_word(w)), " "@)
}

fn capitalize_word_exec(w: &Vec<char>) -> (r: Vec<char>)
    ensures
        r@ == capitalize_word(w@),
{
    if w.len() == 0 {
        return Vec::new();
    }
    let up = char_to_uppercase(w[0]);
    let mut out = chars_of(up.as_str());
    let rest = slice_chars(w, 1, w.len());
    append_vec(&mut out, &rest);
    proof {
        assert(w@.subrange(1, w@.len() as int) =~= w@.skip(1));
    }
    out
}

/// Capitalises every word of a text and separates the words by single spaces.
pub fn capitalize_words(s: &Vec<char>) -> (r: Vec<char>)
    ensures
        r@ == capitalize_words_spec(s@),
{
    let ws = split_whitespace(s);
    let ghost all = words(s@);
    let mut caps: Vec<Vec<char>> = Vec::new();
    for k in 0..ws.len()
        invariant
            all == words(s@),
            ws@.len() == all.len(),
            forall|m: int| 0 <= m < ws@.len() ==> #[trigger] ws@[m]@ == all[m],
            caps@.len() == k,
            forall|m: int| 0 <= m < k ==> #[trigger] caps@[m]@ == capitalize_word(all[m]),
    {
        caps.push(capitalize_word_exec(&ws[k]));
    }
    proof {
        assert(caps@.map_values(|v: Vec<char>| v@) =~= all.map_values(|w: Seq<char>| capitalize_word(w)));
    }
    join_chars(&caps, &chars_of(" "))
}

/// The prefix of file names by Alena Aenami.
pub open spec fn alena_prefix() -> Seq<char> {
    "alena-aenami-"@
}

/// The stem of a file name, or the name itself when it has none.
pub open spec fn minimal_stem(filename: Seq<char>) -> Seq<char> {
    match file_stem(filename) {
        Some(s) => s,
        None => filename,
    }
}

/// The author and title parts of a stem: after `alena-aenami-` (author
/// Alena Aenami) or `unknown-` (no author), matched in lower case, else
/// around the first `-`, else the whole stem as title.
pub open spec fn minimal_parts(stem: Seq<char>) -> (Seq<char>, Seq<char>) {
    let lower = lowercase(stem);
    if has_prefix(lower, alena_prefix()) {
        ("Alena Aenami"@, stem.skip(chars_for_bytes(stem, 13)->0))
    } else if has_prefix(lower, "unknown-"@) {
        (seq![], stem.skip(chars_for_bytes(stem, 8)->0))
    } else if stem.contains('-') {
        let i = choose|i: int| 0 <= i < stem.len() && stem[i] == '-' && forall|j: int| 0 <= j < i ==> stem[j] != '-';
        (stem.take(i), stem.skip(i + 1))
    } else {
        (seq![], stem)
    }
}

/// Slicing the stem after a matched prefix falls on a character.
pub open spec fn minimal_sliceable(filename: Seq<char>) -> bool {
    let stem = minimal_stem(filename);
    let lower = lowercase(stem);
    &&& has_prefix(lower, alena_prefix()) ==> chars_for_bytes(stem, 13) is Some
    &&& (!has_prefix(lower, alena_prefix()) && has_prefix(lower, "unknown-"@)) ==> chars_for_bytes(stem, 8) is Some
}

/// The title and the author read from a file name.
pub open spec fn minimal_title_author(filename: Seq<char>) -> (Seq<char>, Seq<char>) {
    let (author_raw, title_raw) = minimal_parts(minimal_stem(filename));
    let author = if author_raw.len() == 0 {
        "Minimalist"@
    } else if author_raw == "Alena Aenami"@ {
        "Alena Aenami"@
    } else {
        capitalize_words_spec(replace_all(author_raw, "_"@, " "@))
    };
    let title = capitalize_words_spec(replace_all(replace_all(title_raw, "-"@, " "@), "_"@, " "@));
    (title, author)
}

/// Reads the title and the author of a wallpaper from its file name.
pub fn parse_minimal_filename(filename: &str) -> (r: (String, String))
    requires
        minimal_sliceable(filename@),
    ensures
        (r.0@, r.1@) == minimal_title_author(filename@),
{
    let stem = match path_file_stem(filename) {
        Some(s) => s,
        None => chars_of(filename),
    };
    let stem_s = string_of(&stem);
    let lower = to_lowercase(stem_s.as_str());
    let lv = chars_of(lower.as_str());
    let (author_raw, title_raw): (Vec<char>, Vec<char>) = if starts_with(&lv, &chars_of("alena-aenami-")) {
        let k = prefix_chars_for_bytes(&stem, 13);
        let k = match k {
            Some(k) => k,
            None => 0,
        };
        proof {
            assert(stem@.subrange(k as int, stem@.len() as int) =~= stem@.skip(k as int));
        }
        (chars_of("Alena Aenami"), slice_chars(&stem, k, stem.len()))
    } else if starts_with(&lv, &chars_of("unknown-")) {
        let k = prefix_chars_for_bytes(&stem, 8);
        let k = match k {
            Some(k) => k,
            None => 0,
        };
        proof {
            assert(stem@.subrange(k as int, stem@.len() as int) =~= stem@.skip(k as int));
        }
        (Vec::new(), slice_chars(&stem, k, stem.len()))
    } else {
        let found = crate::text::find_char(&stem, '-');
        match found {
            Some(i) => {
                proof {
                    assert(stem@[i as int] == '-');
                    assert(stem@.contains('-'));
                    let c = choose|x: int| 0 <= x < stem@.len() && stem@[x] == '-' && forall|j: int| 0 <= j < x ==> stem@[j] != '-';
                    if c < i {
                        assert(stem@[c] != '-');
                    } else if c > i {
                        assert(stem@[i as int] != '-');
                    }
                    assert(stem@.subrange(0, i as int) =~= stem@.take(i as int));
                    assert(stem@.subrange(i + 1, stem@.len() as int) =~= stem@.skip(i + 1));
                }
                (slice_chars(&stem, 0, i), slice_chars(&stem, i + 1, stem.len()))
            },
            None => {
                proof {
                    assert(!stem@.contains('-'));
                }
                (Vec::new(), stem.clone())
            },
        }
    };
    let author: Vec<char> = if author_raw.len() == 0 {
        chars_of("Minimalist")
    } else if str_eq(string_of(&author_raw).as_str(), "Alena Aenami") {
        chars_of("Alena Aenami")
    } else {
        capitalize_words(&replace_chars(&author_raw, &chars_of("_"), &chars_of(" ")))
    };
    let t1 = replace_chars(&title_raw, &chars_of("-"), &chars_of(" "));
    let t2 = replace_chars(&t1, &chars_of("_"), &chars_of(" "));
    let title = capitalize_words(&t2);
    (string_of(&title), string_of(&author))
}

/// The resolution label guessed from a file size: above 2 000 000 bytes 4K,
/// above 800 000 bytes 2K, else 1080p; `HD` when the size is unknown.
pub open spec fn size_resolution(size: Option<u64>) -> Seq<char> {
    match size {
        Some(sz) => if sz > 2_000_000 {
            "4K UHD"@
        } else if sz > 800_000 {
            "2K QHD"@
        } else {
            "1080p HD"@
        },
        None => "HD"@,
    }
}

/// The item of a catalogue entry.
pub open spec fn minimal_item(name: Seq<char>, download_url: Seq<char>, size: Option<u64>) -> OnlineItemView {
    let (title, author) = minimal_title_author(name);
    OnlineItemView {
        id: "minimal_"@ + replace_all(name, "."@, "_"@),
        title: title,
        author_or_copyright: author,
        thumb_url: "https://wsrv.nl/?url="@ + download_url + "&w=400&h=225&fit=cover&output=jpg&q=80"@,
        full_url: download_url,
        resolution: size_resolution(size),
        source: OnlineSource::Minimalistic,
        date: None,
    }
}

/// Turns a catalogue entry into an online wallpaper item.
pub fn minimal_entry_item(entry: &MinimalRawEntry) -> (r: OnlineWallpaperItem)
    requires
        minimal_sliceable(entry.name@),
    ensures
        r@ == minimal_item(entry.name@, entry.download_url@, entry.size),
{
    let (title, author) = parse_minimal_filename(entry.name.as_str());
    let resolution = match entry.size {
        Some(sz) => if sz > 2_000_000 {
            owned("4K UHD")
        } else if sz > 800_000 {
            owned("2K QHD")
        } else {
            owned("1080p HD")
        },
        None => owned("HD"),
    };
    let mut thumb = owned("https://wsrv.nl/?url=");
    push_str(&mut thumb, entry.download_url.as_str());
    push_str(&mut thumb, "&w=400&h=225&fit=cover&output=jpg&q=80");
    let mut id = owned("minimal_");
    let cleaned = str_replace(entry.name.as_str(), ".", "_");
    push_str(&mut id, cleaned.as_str());
    OnlineWallpaperItem {
        id,
        title,
        author_or_copyright: author,
        thumb_url: thumb,
        full_url: entry.download_url.clone(),
        resolution,
        source: OnlineSource::Minimalistic,
        date: None,
    }
}

/// The file name can be read without slicing inside a character: `Some` of
/// its title and author when it can, `None` otherwise.
pub fn try_parse_minimal_filename(filename: &str) -> (r: Option<(String, String)>)
    ensures
        r is Some <==> minimal_sliceable(filename@),
        r matches Some(p) ==> (p.0@, p.1@) == minimal_title_author(filename@),
{
    if check_minimal_sliceable(filename) {
        Some(parse_minimal_filename(filename))
    } else {
        None
    }
}

/// Turns a catalogue entry into an item when its name can be read: `None`
/// exactly when the name cannot be sliced after its prefix.
pub fn try_minimal_entry_item(entry: &MinimalRawEntry) -> (r: Option<OnlineWallpaperItem>)
    ensures
        r is Some <==> minimal_sliceable(entry.name@),
        r matches Some(it) ==> it@ == minimal_item(entry.name@, entry.download_url@, entry.size),
{
    if check_minimal_sliceable(entry.name.as_str()) {
        Some(minimal_entry_item(entry))
    } else {
        None
    }
}

fn check_minimal_sliceable(filename: &str) -> (r: bool)
    ensures
        r == minimal_sliceable(filename@),
{
    let stem = match path_file_stem(filename) {
        Some(s) => s,
        None => chars_of(filename),
    };
    let stem_s = string_of(&stem);
    let lower = to_lowercase(stem_s.as_str());
    let lv = chars_of(lower.as_str());
    if starts_with(&lv, &chars_of("alena-aenami-")) {
        prefix_chars_for_bytes(&stem, 13).is_some()
    } else if starts_with(&lv, &chars_of("unknown-")) {
        prefix_chars_for_bytes(&stem, 8).is_some()
    } else {
        true
    }
}


/// Every entry name of a catalogue can be read.
pub open spec fn catalogue_sliceable(entries: Seq<MinimalRawEntry>) -> bool {
    forall|i: int| 0 <= i < entries.len() ==> minimal_sliceable(#[trigger] entries[i].name@)
}

/// The items of a catalogue, one per entry, in order.
pub open spec fn minimal_catalogue(entries: Seq<MinimalRawEntry>) -> Seq<OnlineItemView> {
    entries.map_values(|e: MinimalRawEntry| minimal_item(e.name@, e.download_url@, e.size))
}

/// Turns the entries of the collection's catalogue into online wallpaper
/// items, one per entry, in order.
pub fn minimal_items(entries: &Vec<MinimalRawEntry>) -> (r: Vec<OnlineWallpaperItem>)
    requires
        catalogue_sliceable(entries@),
    ensures
        items_view(r@) == minimal_catalogue(entries@),
{
    let mut r: Vec<OnlineWallpaperItem> = Vec::new();
    for i in 0..entries.len()
        invariant
            catalogue_sliceable(entries@),
            items_view(r@) == minimal_catalogue(entries@).take(i as int),
    {
        let item = minimal_entry_item(&entries[i]);
        let ghost before = r@;
        r.push(item);
        proof {
            assert(items_view(r@) =~= items_view(before).push(item@));
            assert(minimal_catalogue(entries@).take(i + 1) =~= minimal_catalogue(entries@).take(i as int).push(item@));
        }
    }
    proof {
        assert(minimal_catalogue(entries@).take(entries@.len() as int) =~= minimal_catalogue(entries@));
    }
    r
}

/// The items of a catalogue when every entry name can be read (see
/// `minimal_items`); `None` when one cannot.
pub fn try_minimal_items(entries: &Vec<MinimalRawEntry>) -> (r: Option<Vec<OnlineWallpaperItem>>)
    ensures
        r is Some <==> catalogue_sliceable(entries@),
        r matches Some(v) ==> items_view(v@) == minimal_catalogue(entries@),
{
    for i in 0..entries.len()
        invariant
            forall|j: int| 0 <= j < i ==> minimal_sliceable(#[trigger] entries@[j].name@),
    {
        if !check_minimal_sliceable(entries[i].name.as_str()) {
            return None;
        }
    }
    Some(minimal_items(entries))
}

/// How long, in seconds, a saved catalogue is used without fetching it again.
pub const CATALOGUE_MAX_AGE_SECS: u64 = 86400;

/// Whether a saved catalogue of that age (in seconds) is used as it is.
pub fn catalogue_is_fresh(age_secs: u64) -> (b: bool)
    ensures
        b == (age_secs < CATALOGUE_MAX_AGE_SECS),
{
    age_secs < CATALOGUE_MAX_AGE_SECS
}

/// Why fetching the catalogue failed.
pub enum CatalogueFailure {
    /// The request could not be made (the error text).
    Connection(String),
    /// The server answered with an error status (the status text).
    Status(String),
    /// The body of the answer could not be read (the error text).
    Body(String),
}

/// The message of a failed fetch.
pub open spec fn failure_message(f: CatalogueFailure) -> Seq<char> {
    match f {
        CatalogueFailure::Connection(e) => "Connection error: "@ + e@,
        CatalogueFailure::Status(s) => "HTTP error: "@ + s@,
        CatalogueFailure::Body(e) => "Error reading response text: "@ + e@,
    }
}

/// After a failed fetch, the items of the saved catalogue where it could be
/// read, else the message of the failure.
pub fn catalogue_fallback(saved: Option<Vec<OnlineWallpaperItem>>, failure: CatalogueFailure) -> (r: Result<Vec<OnlineWallpaperItem>, String>)
    ensures
        match saved {
            Some(items) => r == Ok::<Vec<OnlineWallpaperItem>, String>(items),
            None => r matches Err(m) && m@ == failure_message(failure),
        },
{
    match saved {
        Some(items) => Ok(items),
        None => Err(match failure {
            CatalogueFailure::Connection(e) => crate::text::concat2("Connection error: ", e.as_str()),
            CatalogueFailure::Status(st) => crate::text::concat2("HTTP error: ", st.as_str()),
            CatalogueFailure::Body(e) => crate::text::concat2("Error reading response text: ", e.as_str()),
        }),
    }
}

} // verus!
