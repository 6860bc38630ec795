//! Naming of downloaded wallpapers and cached thumbnails.
use vstd::prelude::*;
use crate::text::{chars_of, has_suffix, owned, push_char, push_chars, push_str, str_ends_with, string_of, trim, trim_chars};
use crate::unicode::{char_is_ascii_alnum, is_ascii_alnum};
use crate::paths::{join, path_join};

verus! {

/// The character kept in a cleaned identifier: ASCII letters, digits, `_`
/// and `-` stay, anything else becomes `_`.
pub open spec fn clean_id_char(c: char) -> char {
    if is_ascii_alnum(c) || c == '_' || c == '-' { c } else { '_' }
}

/// `<prefix>_<cleaned id>.<ext>`.
pub open spec fn clean_filename_spec(prefix: Seq<char>, id: Seq<char>, ext: Seq<char>) -> Seq<char> {
    prefix + seq!['_'] + id.map_values(|c: char| clean_id_char(c)) + seq!['.'] + ext
}

/// The file name of a cached item: `<prefix>_<id>.<ext>` with every character
/// of the id that is not an ASCII letter, digit, `_` or `-` replaced by `_`.
pub fn clean_filename(prefix: &str, id: &str, ext: &str) -> (r: String)
    ensures
        r@ == clean_filename_spec(prefix@, id@, ext@),
{
    let idv = chars_of(id);
    let mut cleaned: Vec<char> = Vec::new();
    for i in 0..idv.len()
        invariant
            cleaned@ == idv@.take(i as int).map_values(|c: char| clean_id_char(c)),
    {
        let c = idv[i];
        let k = if char_is_ascii_alnum(c) || c == '_' || c == '-' { c } else { '_' };
        cleaned.push(k);
        proof {
            assert(idv@.take(i + 1).map_values(|c: char| clean_id_char(c))
                =~= idv@.take(i as int).map_values(|c: char| clean_id_char(c)).push(clean_id_char(idv@[i as int])));
        }
    }
    proof {
        assert(idv@.take(idv@.len() as int) =~= idv@);
    }
    let mut s = owned(prefix);
    push_char(&mut s, '_');
    push_chars(&mut s, &cleaned);
    push_char(&mut s, '.');
    push_str(&mut s, ext);
    s
}

/// Characters that file systems (Linux, NTFS, FAT) refuse in a file name:
/// path separators, `: * ? " < > |` and control characters.
pub open spec fn is_forbidden_filename_char(c: char) -> bool {
    ||| c == '/'
    ||| c == '\\'
    ||| c == ':'
    ||| c == '*'
    ||| c == '?'
    ||| c == '"'
    ||| c == '<'
    ||| c == '>'
    ||| c == '|'
    ||| (c as u32) < 0x20
    ||| (c as u32) == 0x7f
}

/// A title made safe as a file name: forbidden characters become `_`, and
/// surrounding whitespace is removed.
pub open spec fn clean_title_spec(title: Seq<char>) -> Seq<char> {
    trim(title.map_values(|c: char| if is_forbidden_filename_char(c) { '_' } else { c }))
}

/// A human title turned into a file name that every common file system
/// accepts.
pub fn clean_title_filename(title: &str) -> (r: String)
    ensures
        r@ == clean_title_spec(title@),
{
    let tv = chars_of(title);
    let mut mapped: Vec<char> = Vec::new();
    for i in 0..tv.len()
        invariant
            mapped@ == tv@.take(i as int).map_values(|c: char| if is_forbidden_filename_char(c) { '_' } else { c }),
    {
        let c = tv[i];
        let u = c as u32;
        let bad = c == '/' || c == '\\' || c == ':' || c == '*' || c == '?' || c == '"' || c == '<'
            || c == '>' || c == '|' || u < 0x20 || u == 0x7f;
        mapped.push(if bad { '_' } else { c });
        proof {
            assert(tv@.take(i + 1).map_values(|c: char| if is_forbidden_filename_char(c) { '_' } else { c })
                =~= tv@.take(i as int).map_values(|c: char| if is_forbidden_filename_char(c) { '_' } else { c }).push(
                if is_forbidden_filename_char(tv@[i as int]) { '_' } else { tv@[i as int] }));
        }
    }
    proof {
        assert(tv@.take(tv@.len() as int) =~= tv@);
    }
    let t = trim_chars(&mapped);
    string_of(&t)
}

/// The extensions under which a download may have been saved, in the order
/// they are looked for.
pub open spec fn download_extensions() -> Seq<Seq<char>> {
    seq!["jpg"@, "jpeg"@, "png"@, "webp"@]
}

/// The paths where an item of the given source prefix and id may have been
/// downloaded into `dir`: one per extension of `download_extensions`.
pub fn download_candidates(dir: &str, prefix: &str, id: &str) -> (r: Vec<String>)
    ensures
        r@.len() == 4,
        forall|k: int| 0 <= k < 4 ==> #[trigger] r@[k]@ == join(dir@, clean_filename_spec(prefix@, id@, download_extensions()[k])),
{
    let mut v: Vec<String> = Vec::new();
    let f0 = clean_filename(prefix, id, "jpg");
    v.push(path_join(dir, f0.as_str()));
    let f1 = clean_filename(prefix, id, "jpeg");
    v.push(path_join(dir, f1.as_str()));
    let f2 = clean_filename(prefix, id, "png");
    v.push(path_join(dir, f2.as_str()));
    let f3 = clean_filename(prefix, id, "webp");
    v.push(path_join(dir, f3.as_str()));
    v
}

/// A file of this size (when it exists) counts as a completed download.
pub open spec fn holds_download(size: Option<u64>) -> bool {
    size matches Some(n) && n > 1024
}

/// The first candidate whose file is present with more than 1024 bytes.
pub open spec fn first_downloaded(candidates: Seq<Seq<char>>, sizes: Seq<Option<u64>>) -> Option<int> {
    if exists|k: int| 0 <= k < candidates.len() && k < sizes.len() && #[trigger] holds_download(sizes[k]) {
        Some(choose|k: int| 0 <= k < candidates.len() && k < sizes.len() && #[trigger] holds_download(sizes[k])
            && forall|j: int| 0 <= j < k ==> !holds_download(sizes[j]))
    } else {
        None
    }
}

/// Picks the downloaded file among the candidates: `sizes[k]` is the size of
/// the file at `candidates[k]` when it exists. The first candidate holding
/// more than 1024 bytes is the download.
pub fn is_downloaded(candidates: &Vec<String>, sizes: &Vec<Option<u64>>) -> (r: Option<String>)
    ensures
        match first_downloaded(candidates@.map_values(|s: String| s@), sizes@) {
            Some(k) => r is Some && r->0@ == candidates@[k]@,
            None => r is None,
        },
{
    let ghost cs = candidates@.map_values(|s: String| s@);
    let mut k: usize = 0;
    while k < candidates.len() && k < sizes.len()
        invariant
            cs == candidates@.map_values(|s: String| s@),
            k <= candidates.len(),
            forall|j: int| 0 <= j < k ==> !holds_download(#[trigger] sizes@[j]),
        decreases candidates.len() - k,
    {
        match sizes[k] {
            Some(n) => {
                if n > 1024 {
                    proof {
                        assert(holds_download(sizes@[k as int]));
                        let c = choose|x: int| 0 <= x < cs.len() && x < sizes@.len() && #[trigger] holds_download(sizes@[x])
                            && forall|j: int| 0 <= j < x ==> !holds_download(sizes@[j]);
                        if c < k {
                            assert(!holds_download(sizes@[c]));
                        }
                        if c > k {
                            assert(!holds_download(sizes@[k as int]));
                        }
                    }
                    return Some(candidates[k].clone());
                }
            },
            None => {},
        }
        k = k + 1;
    }
    None
}

/// The user's pictures folder: the absolute folder that `xdg-user-dir
/// PICTURES` printed (trimmed); else, with a home folder, the first
/// `XDG_PICTURES_DIR=` line of `~/.config/user-dirs.dirs` (its value without
/// surrounding quotes, `$HOME` replaced by the home folder), else
/// `~/Imágenes` when it exists, else `~/Pictures`; `/tmp` without a home.
pub open spec fn pictures_dir_spec(xdg_output: Option<Seq<char>>, home: Option<Seq<char>>, user_dirs: Option<Seq<char>>,
    imagenes_exists: bool, pictures_exists: bool) -> Seq<char>
{
    let from_xdg = match xdg_output {
        Some(o) => {
            let t = trim(o);
            if t.len() != 0 && crate::paths::is_absolute(t) { Some(t) } else { None }
        },
        None => None,
    };
    match from_xdg {
        Some(p) => p,
        None => match home {
            Some(h) => {
                let from_file = match user_dirs {
                    Some(c) => pictures_line(crate::lines::lines(c), h),
                    None => None,
                };
                match from_file {
                    Some(p) => p,
                    None => if imagenes_exists { join(h, "Imágenes"@) } else { join(h, "Pictures"@) },
                }
            },
            None => "/tmp"@,
        },
    }
}

/// The pictures folder named by the first `XDG_PICTURES_DIR=` line.
pub open spec fn pictures_line(ls: Seq<Seq<char>>, home: Seq<char>) -> Option<Seq<char>>
    decreases ls.len(),
{
    if ls.len() == 0 {
        None
    } else {
        let t = trim(ls[0]);
        if crate::text::has_prefix(t, "XDG_PICTURES_DIR="@) {
            let val = crate::engine::sysinfo::trim_matches_spec(crate::text::strip_prefix_all(t, "XDG_PICTURES_DIR="@), '"');
            Some(crate::text::replace_all(val, "$HOME"@, home))
        } else {
            pictures_line(ls.drop_first(), home)
        }
    }
}

fn pictures_line_exec(ls: &Vec<Vec<char>>, home: &str) -> (r: Option<String>)
    ensures
        match r {
            Some(p) => pictures_line(ls@.map_values(|l: Vec<char>| l@), home@) == Some(p@),
            None => pictures_line(ls@.map_values(|l: Vec<char>| l@), home@) is None,
        },
{
    let ghost all = ls@.map_values(|l: Vec<char>| l@);
    let key = chars_of("XDG_PICTURES_DIR=");
    let dollar = chars_of("$HOME");
    let hv = chars_of(home);
    let mut i: usize = 0;
    proof {
        assert(all.skip(0) =~= all);
    }
    while i < ls.len()
        invariant
            i <= ls.len(),
            all == ls@.map_values(|l: Vec<char>| l@),
            key@ == "XDG_PICTURES_DIR="@,
            dollar@ == "$HOME"@,
            hv@ == home@,
            pictures_line(all, home@) == pictures_line(all.skip(i as int), home@),
        decreases ls.len() - i,
    {
        proof {
            assert(all.skip(i as int)[0] == ls@[i as int]@);
            assert(all.skip(i as int).drop_first() =~= all.skip(i + 1));
        }
        let t = trim_chars(&ls[i]);
        if crate::text::starts_with(&t, &key) {
            let rest = crate::text::trim_start_matches(&t, &key);
            let val = crate::engine::sysinfo::trim_matches(&rest, '"');
            let expanded = crate::text::replace_chars(&val, &dollar, &hv);
            return Some(string_of(&expanded));
        }
        i = i + 1;
    }
    None
}

/// See `pictures_dir_spec`; `xdg_output` is what `xdg-user-dir PICTURES`
/// printed when it ran successfully, `user_dirs` the text of
/// `~/.config/user-dirs.dirs` when it could be read.
pub fn user_pictures_dir(xdg_output: Option<&str>, home: Option<&str>, user_dirs: Option<&str>,
    imagenes_exists: bool, pictures_exists: bool) -> (r: String)
    ensures
        r@ == pictures_dir_spec(
            match xdg_output { Some(o) => Some(o@), None => None },
            match home { Some(h) => Some(h@), None => None },
            match user_dirs { Some(c) => Some(c@), None => None },
            imagenes_exists, pictures_exists),
{
    match xdg_output {
        Some(o) => {
            let t = crate::text::str_trim(o);
            let tv = chars_of(t.as_str());
            if tv.len() != 0 && tv[0] == '/' {
                return t;
            }
        },
        None => {},
    }
    match home {
        Some(h) => {
            match user_dirs {
                Some(c) => {
                    let ls = crate::lines::str_lines(c);
                    proof {
                        assert(ls@.map_values(|l: Vec<char>| l@) =~= crate::lines::lines(c@));
                    }
                    match pictures_line_exec(&ls, h) {
                        Some(p) => { return p; },
                        None => {},
                    }
                },
                None => {},
            }
            if imagenes_exists {
                path_join(h, "Imágenes")
            } else {
                path_join(h, "Pictures")
            }
        },
        None => owned("/tmp"),
    }
}

/// The folder of downloaded wallpapers: `Wallpapers/Aura` in the pictures
/// folder.
pub fn wallpapers_online_dir(pictures: &str) -> (r: String)
    ensures
        r@ == join(pictures@, "Wallpapers/Aura"@),
{
    path_join(pictures, "Wallpapers/Aura")
}

/// The folder where downloads used to be kept:
/// `aura/wallpapers/online` under `$XDG_DATA_HOME` when it is set and not
/// empty, else under `~/.local/share` (with `/tmp` for a missing home).
pub fn legacy_online_dir(xdg_data: Option<&str>, home: Option<&str>) -> (r: String)
    ensures
        r@ == join(match xdg_data {
            Some(x) => if x@.len() != 0 { x@ } else { join(match home { Some(h) => h@, None => "/tmp"@ }, ".local/share"@) },
            None => join(match home { Some(h) => h@, None => "/tmp"@ }, ".local/share"@),
        }, "aura/wallpapers/online"@),
{
    let h = match home {
        Some(h) => h,
        None => "/tmp",
    };
    let base = match xdg_data {
        Some(x) => if !x.is_empty() { owned(x) } else { path_join(h, ".local/share") },
        None => path_join(h, ".local/share"),
    };
    path_join(base.as_str(), "aura/wallpapers/online")
}

/// The folder of cached catalogue thumbnails: `aura/online_thumbs` in the
/// cache folder.
pub fn thumbs_online_cache_dir(xdg_cache: Option<&str>, home: Option<&str>) -> (r: String)
    ensures
        r@ == join(crate::scanner::thumbs::cache_base(
            match xdg_cache { Some(x) => Some(x@), None => None },
            match home { Some(h) => Some(h@), None => None }), "aura/online_thumbs"@),
{
    let base = crate::scanner::thumbs::cache_base_exec(xdg_cache, home);
    path_join(base.as_str(), "aura/online_thumbs")
}

/// A file left behind by an interrupted download: its name ends in `.tmp`
/// or `.tmp.jpg`.
pub open spec fn partial_download_spec(name: Seq<char>) -> bool {
    has_suffix(name, ".tmp"@) || has_suffix(name, ".tmp.jpg"@)
}

/// See `partial_download_spec`; such files in the folder of downloads are
/// removed at start.
pub fn is_partial_download(name: &str) -> (b: bool)
    ensures
        b == partial_download_spec(name@),
{
    str_ends_with(name, ".tmp") || str_ends_with(name, ".tmp.jpg")
}

} // verus!
