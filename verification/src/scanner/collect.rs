//! Building the library from the files found on disk: which folders are
//! searched, which files become wallpapers, and the order in which the
//! library lists them.
use vstd::prelude::*;
use crate::text::{chars_of, owned, string_of};
use crate::unicode::lowercase;
use crate::paths::{extension, file_stem, path_extension, path_file_stem, path_starts_with, paths_equal, same_path};
use crate::scanner::{VideoItem, is_supported_wallpaper_ext, path_is_video, supported_ext};
use crate::scanner::size::file_size_text;
use crate::strlist::{contains_str, lemma_views_push, views};
use crate::online::bing::opt_view;

verus! {

/// A file met while scanning: its path, its size in bytes and its thumbnail,
/// where one is on disk.
#[derive(Debug)]
pub struct FoundFile {
    pub path: String,
    pub size: u64,
    pub thumb_path: Option<String>,
}

/// The contents of a library entry.
pub struct VideoView {
    pub path: Seq<char>,
    pub name: Seq<char>,
    pub name_lower: Seq<char>,
    pub size_formatted: Seq<char>,
    pub thumb_path: Option<Seq<char>>,
    pub is_video: bool,
    pub is_downloaded: bool,
}

/// The contents of a library entry.
pub open spec fn video_view(v: VideoItem) -> VideoView {
    VideoView {
        path: v.path@,
        name: v.name@,
        name_lower: v.name_lower@,
        size_formatted: v.size_formatted@,
        thumb_path: opt_view(v.thumb_path),
        is_video: v.is_video,
        is_downloaded: v.is_downloaded,
    }
}

/// The contents of a list of library entries.
pub open spec fn videos_view(v: Seq<VideoItem>) -> Seq<VideoView> {
    v.map_values(|x: VideoItem| video_view(x))
}

/// The folders searched: the configured ones, with the folder of downloaded
/// wallpapers put first unless it is already among them.
pub open spec fn scan_roots_spec(dirs: Seq<Seq<char>>, online_dir: Seq<char>) -> Seq<Seq<char>> {
    crate::config::with_online_dir(dirs, online_dir)
}

/// The name of the wallpaper at a path: its file stem, else `Wallpaper`.
pub open spec fn wallpaper_name(path: Seq<char>) -> Seq<char> {
    match file_stem(path) {
        Some(s) => s,
        None => "Wallpaper"@,
    }
}

/// The library entry of a found file.
pub open spec fn found_entry(f: FoundFile, online_dir: Seq<char>) -> VideoView {
    VideoView {
        path: f.path@,
        name: wallpaper_name(f.path@),
        name_lower: lowercase(wallpaper_name(f.path@)),
        size_formatted: file_size_text(f.size),
        thumb_path: opt_view(f.thumb_path),
        is_video: path_is_video(f.path@),
        is_downloaded: path_starts_with(f.path@, online_dir),
    }
}

/// A file found in a searched folder is a wallpaper when its extension is a
/// supported one.
pub open spec fn wallpaper_file(f: FoundFile) -> bool {
    match extension(f.path@) {
        Some(e) => supported_ext(e),
        None => false,
    }
}

/// The files of a searched folder that are wallpapers, in order.
pub open spec fn wallpaper_files(s: Seq<FoundFile>) -> Seq<FoundFile>
    decreases s.len(),
{
    if s.len() == 0 {
        seq![]
    } else if wallpaper_file(s.last()) {
        wallpaper_files(s.drop_last()).push(s.last())
    } else {
        wallpaper_files(s.drop_last())
    }
}

/// Whether a file of `s` is at the path `p`.
pub open spec fn has_path(s: Seq<FoundFile>, p: Seq<char>) -> bool {
    exists|k: int| 0 <= k < s.len() && same_path(s[k].path@, p)
}

/// The files of `s` whose path did not come before, in order.
pub open spec fn first_by_path(s: Seq<FoundFile>) -> Seq<FoundFile>
    decreases s.len(),
{
    if s.len() == 0 {
        seq![]
    } else {
        let prev = first_by_path(s.drop_last());
        if has_path(prev, s.last().path@) { prev } else { prev.push(s.last()) }
    }
}

/// The entries of a list of files.
pub open spec fn found_entries(s: Seq<FoundFile>, online_dir: Seq<char>) -> Seq<VideoView> {
    s.map_values(|f: FoundFile| found_entry(f, online_dir))
}

/// Lexicographic order of texts by character code, which is the order of
/// their UTF-8 bytes.
pub open spec fn text_le(a: Seq<char>, b: Seq<char>) -> bool
    decreases a.len(),
{
    if a.len() == 0 {
        true
    } else if b.len() == 0 {
        false
    } else if a[0] < b[0] {
        true
    } else if a[0] > b[0] {
        false
    } else {
        text_le(a.drop_first(), b.drop_first())
    }
}

/// `x` put into `s` after every entry from the end whose name sorts after
/// its own.
pub open spec fn insert_by_name(s: Seq<VideoView>, x: VideoView) -> Seq<VideoView>
    decreases s.len(),
{
    if s.len() == 0 {
        seq![x]
    } else if text_le(s.last().name_lower, x.name_lower) {
        s.push(x)
    } else {
        insert_by_name(s.drop_last(), x).push(s.last())
    }
}

/// The entries sorted by lower-case name; entries of equal names keep their
/// order.
pub open spec fn sort_by_name(s: Seq<VideoView>) -> Seq<VideoView>
    decreases s.len(),
{
    if s.len() == 0 {
        seq![]
    } else {
        insert_by_name(sort_by_name(s.drop_last()), s.last())
    }
}

/// The library made of the files found in the searched folders and of the
/// files added one by one.
pub open spec fn library_spec(dir_files: Seq<FoundFile>, extra_files: Seq<FoundFile>, online_dir: Seq<char>) -> Seq<VideoView> {
    sort_by_name(found_entries(first_by_path(library_files(dir_files, extra_files)), online_dir))
}

/// The folders to search for wallpapers.
pub fn scan_roots(dirs: &Vec<String>, online_dir: &str) -> (r: Vec<String>)
    ensures
        views(r@) == scan_roots_spec(views(dirs@), online_dir@),
{
    let mut r: Vec<String> = Vec::new();
    let present = contains_str(dirs, online_dir);
    if !present {
        r.push(owned(online_dir));
    }
    let ghost start = views(r@);
    for i in 0..dirs.len()
        invariant
            views(r@) == start + views(dirs@).take(i as int),
    {
        let ghost before = r@;
        let c = dirs[i].clone();
        r.push(c);
        proof {
            lemma_views_push(before, c);
            assert(views(dirs@)[i as int] == dirs@[i as int]@);
            assert(views(r@) =~= start + views(dirs@).take(i + 1));
        }
    }
    proof {
        assert(views(dirs@).take(dirs@.len() as int) =~= views(dirs@));
        if present {
            assert(start + views(dirs@) =~= views(dirs@));
        }
    }
    r
}


/// Comparing from a common prefix on.
proof fn lemma_text_le_skip(a: Seq<char>, b: Seq<char>, i: int)
    requires
        0 <= i < a.len(),
        i < b.len(),
        a[i] == b[i],
    ensures
        text_le(a.skip(i), b.skip(i)) == text_le(a.skip(i + 1), b.skip(i + 1)),
{
    assert(a.skip(i).drop_first() =~= a.skip(i + 1));
    assert(b.skip(i).drop_first() =~= b.skip(i + 1));
}

/// Whether `a` sorts before or with `b`.
pub fn text_le_exec(a: &str, b: &str) -> (r: bool)
    ensures
        r == text_le(a@, b@),
{
    let av = chars_of(a);
    let bv = chars_of(b);
    let mut i: usize = 0;
    proof {
        assert(av@.skip(0) =~= av@);
        assert(bv@.skip(0) =~= bv@);
    }
    while i < av.len()
        invariant
            i <= av.len(),
            text_le(a@, b@) == text_le(av@.skip(i as int), bv@.skip(i as int)),
            av@ == a@,
            bv@ == b@,
            i <= bv.len(),
        decreases av.len() - i,
    {
        if i >= bv.len() {
            return false;
        }
        if av[i] < bv[i] {
            return true;
        }
        if av[i] > bv[i] {
            return false;
        }
        proof {
            lemma_text_le_skip(av@, bv@, i as int);
        }
        i += 1;
    }
    true
}

/// The library entry of a found file.
pub fn found_item(f: FoundFile, online_dir: &str) -> (r: VideoItem)
    ensures
        video_view(r) == found_entry(f, online_dir@),
{
    let name = match path_file_stem(f.path.as_str()) {
        Some(s) => string_of(&s),
        None => owned("Wallpaper"),
    };
    let size_formatted = crate::scanner::size::format_file_size(f.size);
    VideoItem::new(f.path, name, size_formatted, f.thumb_path, online_dir)
}


/// Where an entry is put: after the first `j` entries, `j` being the place
/// reached from the end past every entry whose name sorts after its own.
proof fn lemma_insert_at(s: Seq<VideoView>, x: VideoView, j: int)
    requires
        0 <= j <= s.len(),
        j == 0 || text_le(s[j - 1].name_lower, x.name_lower),
        forall|i: int| j <= i < s.len() ==> !text_le(#[trigger] s[i].name_lower, x.name_lower),
    ensures
        insert_by_name(s, x) == s.take(j).push(x) + s.skip(j),
    decreases s.len(),
{
    if s.len() == 0 {
        assert(s.take(j).push(x) + s.skip(j) =~= seq![x]);
    } else if text_le(s.last().name_lower, x.name_lower) {
        if j < s.len() {
            assert(!text_le(s[s.len() - 1].name_lower, x.name_lower));
        }
        assert(s.take(j).push(x) + s.skip(j) =~= s.push(x));
    } else {
        let t = s.drop_last();
        assert(j < s.len());
        assert forall|i: int| j <= i < t.len() implies !text_le(#[trigger] t[i].name_lower, x.name_lower) by {
            assert(t[i] == s[i]);
        }
        lemma_insert_at(t, x, j);
        assert((t.take(j).push(x) + t.skip(j)).push(s.last()) =~= s.take(j).push(x) + s.skip(j));
    }
}

/// Puts an entry into a list sorted by name, after the entries of the same
/// name.
fn insert_by_name_exec(v: &mut Vec<VideoItem>, x: VideoItem)
    ensures
        videos_view(final(v)@) == insert_by_name(videos_view(old(v)@), video_view(x)),
{
    let mut j: usize = v.len();
    while j > 0 && !text_le_exec(v[j - 1].name_lower.as_str(), x.name_lower.as_str())
        invariant
            j <= v.len(),
            forall|i: int| j <= i < v.len() ==> !text_le(#[trigger] v@[i].name_lower@, x.name_lower@),
        decreases j,
    {
        j -= 1;
    }
    let ghost s = videos_view(v@);
    proof {
        assert forall|i: int| j <= i < s.len() implies !text_le(#[trigger] s[i].name_lower, video_view(x).name_lower) by {
            assert(s[i] == video_view(v@[i]));
        }
        if j > 0 {
            assert(s[j - 1] == video_view(v@[j - 1]));
        }
        lemma_insert_at(s, video_view(x), j as int);
    }
    v.insert(j, x);
    proof {
        assert(videos_view(v@) =~= s.take(j as int).push(video_view(x)) + s.skip(j as int));
    }
}


fn is_wallpaper_file(f: &FoundFile) -> (r: bool)
    ensures
        r == wallpaper_file(*f),
{
    match path_extension(f.path.as_str()) {
        Some(e) => is_supported_wallpaper_ext(string_of(&e).as_str()),
        None => false,
    }
}

fn has_found_path(v: &Vec<FoundFile>, p: &str) -> (r: bool)
    ensures
        r == has_path(v@, p@),
{
    let mut i: usize = 0;
    while i < v.len()
        invariant
            i <= v.len(),
            forall|k: int| 0 <= k < i ==> !same_path(v@[k].path@, p@),
        decreases v.len() - i,
    {
        if paths_equal(v[i].path.as_str(), p) {
            return true;
        }
        i += 1;
    }
    false
}

/// Builds the library from the files found in the searched folders, in the
/// order met, and from the files added one by one. Files of the folders count
/// only with a supported extension; a path met a second time is skipped; the
/// entries are sorted by lower-case name, entries of equal names in the order
/// met. `online_dir` is the folder of downloaded wallpapers.
pub fn build_library(dir_files: Vec<FoundFile>, extra_files: Vec<FoundFile>, online_dir: &str) -> (r: Vec<VideoItem>)
    ensures
        videos_view(r@) == library_spec(dir_files@, extra_files@, online_dir@),
{
    let ghost dirs_all = dir_files@;
    let ghost extra_all = extra_files@;
    let mut cands: Vec<FoundFile> = Vec::new();
    let mut dir_files = dir_files;
    let mut k: usize = 0;
    proof {
        assert(dirs_all.len() == dir_files.len());
        assert(dirs_all.take(0) =~= Seq::<FoundFile>::empty());
    }
    while dir_files.len() > 0
        invariant
            dir_files@ == dirs_all.skip(k as int),
            k <= dirs_all.len(),
            dirs_all.len() <= usize::MAX,
            cands@ == wallpaper_files(dirs_all.take(k as int)),
        decreases dir_files.len(),
    {
        proof {
            assert(dir_files@.len() == dirs_all.len() - k);
        }
        let f = dir_files.remove(0);
        proof {
            assert(f == dirs_all[k as int]);
            assert(dirs_all.take(k + 1).drop_last() =~= dirs_all.take(k as int));
            assert(dirs_all.skip(k + 1) =~= dirs_all.skip(k as int).remove(0));
        }
        if is_wallpaper_file(&f) {
            cands.push(f);
        }
        k += 1;
    }
    proof {
        assert(dirs_all.take(k as int) =~= dirs_all);
    }
    let ghost from_dirs = cands@;
    let mut extra_files = extra_files;
    let mut k: usize = 0;
    proof {
        assert(extra_all.len() == extra_files.len());
        assert(from_dirs + extra_all.take(0) =~= from_dirs);
    }
    while extra_files.len() > 0
        invariant
            extra_files@ == extra_all.skip(k as int),
            k <= extra_all.len(),
            extra_all.len() <= usize::MAX,
            cands@ == from_dirs + extra_all.take(k as int),
        decreases extra_files.len(),
    {
        proof {
            assert(extra_files@.len() == extra_all.len() - k);
        }
        let f = extra_files.remove(0);
        proof {
            assert(f == extra_all[k as int]);
            assert(extra_all.skip(k + 1) =~= extra_all.skip(k as int).remove(0));
        }
        cands.push(f);
        proof {
            assert(from_dirs + extra_all.take(k + 1) =~= (from_dirs + extra_all.take(k as int)).push(f));
        }
        k += 1;
    }
    proof {
        assert(extra_all.take(k as int) =~= extra_all);
    }
    let ghost cands_all = cands@;
    let mut uniq: Vec<FoundFile> = Vec::new();
    let mut k: usize = 0;
    proof {
        assert(cands_all.len() == cands.len());
        assert(cands_all.take(0) =~= Seq::<FoundFile>::empty());
    }
    while cands.len() > 0
        invariant
            cands@ == cands_all.skip(k as int),
            k <= cands_all.len(),
            cands_all.len() <= usize::MAX,
            uniq@ == first_by_path(cands_all.take(k as int)),
        decreases cands.len(),
    {
        proof {
            assert(cands@.len() == cands_all.len() - k);
        }
        let f = cands.remove(0);
        proof {
            assert(f == cands_all[k as int]);
            assert(cands_all.take(k + 1).drop_last() =~= cands_all.take(k as int));
            assert(cands_all.skip(k + 1) =~= cands_all.skip(k as int).remove(0));
        }
        if !has_found_path(&uniq, f.path.as_str()) {
            uniq.push(f);
        }
        k += 1;
    }
    proof {
        assert(cands_all.take(k as int) =~= cands_all);
    }
    let ghost uniq_all = uniq@;
    let mut sorted: Vec<VideoItem> = Vec::new();
    let mut k: usize = 0;
    proof {
        assert(uniq_all.len() == uniq.len());
        assert(found_entries(uniq_all.take(0), online_dir@) =~= Seq::<VideoView>::empty());
        assert(videos_view(sorted@) =~= Seq::<VideoView>::empty());
    }
    while uniq.len() > 0
        invariant
            uniq@ == uniq_all.skip(k as int),
            k <= uniq_all.len(),
            uniq_all.len() <= usize::MAX,
            videos_view(sorted@) == sort_by_name(found_entries(uniq_all.take(k as int), online_dir@)),
        decreases uniq.len(),
    {
        proof {
            assert(uniq@.len() == uniq_all.len() - k);
        }
        let f = uniq.remove(0);
        proof {
            assert(f == uniq_all[k as int]);
            assert(uniq_all.skip(k + 1) =~= uniq_all.skip(k as int).remove(0));
            let e = found_entries(uniq_all.take(k + 1), online_dir@);
            assert(e.drop_last() =~= found_entries(uniq_all.take(k as int), online_dir@));
            assert(e.last() == found_entry(f, online_dir@));
        }
        let item = found_item(f, online_dir);
        insert_by_name_exec(&mut sorted, item);
        k += 1;
    }
    proof {
        assert(uniq_all.take(k as int) =~= uniq_all);
    }
    sorted
}


/// Any two texts are ordered one way or the other.
pub proof fn lemma_text_le_total(a: Seq<char>, b: Seq<char>)
    ensures
        text_le(a, b) || text_le(b, a),
    decreases a.len(),
{
    if a.len() > 0 && b.len() > 0 && a[0] == b[0] {
        lemma_text_le_total(a.drop_first(), b.drop_first());
    }
}

/// The order of texts is transitive.
pub proof fn lemma_text_le_trans(a: Seq<char>, b: Seq<char>, c: Seq<char>)
    requires
        text_le(a, b),
        text_le(b, c),
    ensures
        text_le(a, c),
    decreases a.len(),
{
    if a.len() > 0 && b.len() > 0 && c.len() > 0 && a[0] == b[0] && b[0] == c[0] {
        lemma_text_le_trans(a.drop_first(), b.drop_first(), c.drop_first());
    }
}

/// Entries listed in order of their lower-case names.
pub open spec fn sorted_by_name(s: Seq<VideoView>) -> bool {
    forall|i: int, j: int| 0 <= i < j < s.len() ==> text_le(#[trigger] s[i].name_lower, #[trigger] s[j].name_lower)
}

/// Putting an entry into a sorted list keeps it sorted, and adds that entry
/// and nothing else.
proof fn lemma_insert_by_name(s: Seq<VideoView>, x: VideoView)
    requires
        sorted_by_name(s),
    ensures
        sorted_by_name(insert_by_name(s, x)),
        insert_by_name(s, x).to_multiset() == s.to_multiset().insert(x),
        forall|k: int| 0 <= k < insert_by_name(s, x).len() ==>
            (#[trigger] insert_by_name(s, x)[k] == x || s.contains(insert_by_name(s, x)[k])),
    decreases s.len(),
{
    broadcast use vstd::seq_lib::group_to_multiset_ensures;
    if s.len() == 0 {
        assert(seq![x] =~= Seq::<VideoView>::empty().push(x));
    } else if text_le(s.last().name_lower, x.name_lower) {
        let r = s.push(x);
        assert forall|i: int, j: int| 0 <= i < j < r.len() implies text_le(#[trigger] r[i].name_lower, #[trigger] r[j].name_lower) by {
            if j == s.len() {
                if i < s.len() - 1 {
                    lemma_text_le_trans(s[i].name_lower, s[s.len() - 1].name_lower, x.name_lower);
                }
            } else {
                assert(r[i] == s[i] && r[j] == s[j]);
            }
        }
        assert forall|k: int| 0 <= k < r.len() implies (#[trigger] r[k] == x || s.contains(r[k])) by {
            if k < s.len() {
                assert(r[k] == s[k]);
            }
        }
    } else {
        let t = s.drop_last();
        let last = s.last();
        assert(sorted_by_name(t)) by {
            assert forall|i: int, j: int| 0 <= i < j < t.len() implies text_le(#[trigger] t[i].name_lower, #[trigger] t[j].name_lower) by {
                assert(t[i] == s[i] && t[j] == s[j]);
            }
        }
        lemma_insert_by_name(t, x);
        lemma_text_le_total(last.name_lower, x.name_lower);
        let m = insert_by_name(t, x);
        let r = m.push(last);
        assert(insert_by_name(s, x) == r);
        assert forall|k: int| 0 <= k < m.len() implies text_le(#[trigger] m[k].name_lower, last.name_lower) by {
            if m[k] != x {
                assert(t.contains(m[k]));
                let q = choose|q: int| 0 <= q < t.len() && t[q] == m[k];
                assert(s[q] == t[q]);
                assert(text_le(s[q].name_lower, s[s.len() - 1].name_lower));
            }
        }
        assert forall|i: int, j: int| 0 <= i < j < r.len() implies text_le(#[trigger] r[i].name_lower, #[trigger] r[j].name_lower) by {
            if j == m.len() {
                assert(r[i] == m[i]);
            } else {
                assert(r[i] == m[i] && r[j] == m[j]);
            }
        }
        assert forall|k: int| 0 <= k < r.len() implies (#[trigger] r[k] == x || s.contains(r[k])) by {
            if k < m.len() {
                assert(r[k] == m[k]);
                if m[k] != x {
                    let q = choose|q: int| 0 <= q < t.len() && t[q] == m[k];
                    assert(s[q] == t[q]);
                }
            } else {
                assert(r[k] == s[s.len() - 1]);
            }
        }
        assert(s == t.push(last));
        assert(r.to_multiset() == m.to_multiset().insert(last));
        assert(s.to_multiset() == t.to_multiset().insert(last));
        assert(r.to_multiset() =~= s.to_multiset().insert(x));
    }
}

/// Sorting by name gives a sorted list of the same entries.
pub proof fn lemma_sort_by_name(s: Seq<VideoView>)
    ensures
        sorted_by_name(sort_by_name(s)),
        sort_by_name(s).to_multiset() == s.to_multiset(),
    decreases s.len(),
{
    broadcast use vstd::seq_lib::group_to_multiset_ensures;
    if s.len() == 0 {
    } else {
        lemma_sort_by_name(s.drop_last());
        lemma_insert_by_name(sort_by_name(s.drop_last()), s.last());
        assert(s == s.drop_last().push(s.last()));
    }
}


/// Keeping first occurrences leaves distinct paths and loses none.
proof fn lemma_first_by_path(s: Seq<FoundFile>)
    ensures
        forall|i: int, j: int| 0 <= i < j < first_by_path(s).len() ==>
            !same_path((#[trigger] first_by_path(s)[i]).path@, (#[trigger] first_by_path(s)[j]).path@),
        forall|k: int| 0 <= k < s.len() ==> has_path(first_by_path(s), (#[trigger] s[k]).path@),
    decreases s.len(),
{
    if s.len() > 0 {
        let t = s.drop_last();
        lemma_first_by_path(t);
        let prev = first_by_path(t);
        let r = first_by_path(s);
        assert forall|k: int| 0 <= k < s.len() implies has_path(r, (#[trigger] s[k]).path@) by {
            if k < t.len() {
                assert(t[k] == s[k]);
                assert(has_path(prev, t[k].path@));
                let q = choose|q: int| 0 <= q < prev.len() && same_path(prev[q].path@, t[k].path@);
                assert(r[q] == prev[q]);
            } else if !has_path(prev, s.last().path@) {
                assert(r[prev.len() as int] == s.last());
            }
        }
        assert forall|i: int, j: int| 0 <= i < j < r.len() implies !same_path((#[trigger] r[i]).path@, (#[trigger] r[j]).path@) by {
            if j < prev.len() {
                assert(r[i] == prev[i] && r[j] == prev[j]);
            } else {
                assert(r[i] == prev[i]);
                assert(r[j] == s.last());
            }
        }
    }
}

/// The files of the library: those of the searched folders with a supported
/// extension, then those added one by one.
pub open spec fn library_files(dir_files: Seq<FoundFile>, extra_files: Seq<FoundFile>) -> Seq<FoundFile> {
    wallpaper_files(dir_files) + extra_files
}

/// The library lists its entries sorted by lower-case name; it holds the
/// entries of the files kept, each once; no two of its entries are at the
/// same path; and every file of the library files has an entry at its path.
pub proof fn lemma_library_entries(dir_files: Seq<FoundFile>, extra_files: Seq<FoundFile>, online_dir: Seq<char>)
    ensures
        ({
            let lib = library_spec(dir_files, extra_files, online_dir);
            let files = library_files(dir_files, extra_files);
            &&& sorted_by_name(lib)
            &&& lib.to_multiset() == found_entries(first_by_path(files), online_dir).to_multiset()
            &&& forall|i: int, j: int| 0 <= i < j < lib.len() ==> !same_path((#[trigger] lib[i]).path, (#[trigger] lib[j]).path)
            &&& forall|k: int| 0 <= k < files.len() ==>
                exists|i: int| 0 <= i < lib.len() && same_path(lib[i].path, (#[trigger] files[k]).path@)
        }),
{
    broadcast use vstd::seq_lib::group_to_multiset_ensures;
    let files = library_files(dir_files, extra_files);
    let kept = first_by_path(files);
    let u = found_entries(kept, online_dir);
    let lib = library_spec(dir_files, extra_files, online_dir);
    lemma_sort_by_name(u);
    lemma_first_by_path(files);
    assert(u.no_duplicates()) by {
        assert forall|i: int, j: int| 0 <= i < u.len() && 0 <= j < u.len() && i != j implies u[i] != u[j] by {
            if i < j {
                assert(!same_path(kept[i].path@, kept[j].path@));
            } else {
                assert(!same_path(kept[j].path@, kept[i].path@));
            }
        }
    }
    u.lemma_multiset_has_no_duplicates();
    lib.lemma_multiset_has_no_duplicates_conv();
    assert forall|i: int, j: int| 0 <= i < j < lib.len() implies !same_path((#[trigger] lib[i]).path, (#[trigger] lib[j]).path) by {
        assert(lib.contains(lib[i]));
        assert(lib.contains(lib[j]));
        assert(lib.to_multiset().count(lib[i]) > 0);
        assert(lib.to_multiset().count(lib[j]) > 0);
        assert(u.contains(lib[i]));
        assert(u.contains(lib[j]));
        let a = choose|a: int| 0 <= a < u.len() && u[a] == lib[i];
        let b = choose|b: int| 0 <= b < u.len() && u[b] == lib[j];
        if same_path(lib[i].path, lib[j].path) {
            if a < b {
                assert(!same_path(kept[a].path@, kept[b].path@));
            } else if b < a {
                assert(!same_path(kept[b].path@, kept[a].path@));
            }
            assert(lib[i] == lib[j]);
        }
    }
    assert forall|k: int| 0 <= k < files.len() implies
        exists|i: int| 0 <= i < lib.len() && same_path(lib[i].path, (#[trigger] files[k]).path@) by {
        assert(has_path(kept, files[k].path@));
        let q = choose|q: int| 0 <= q < kept.len() && same_path(kept[q].path@, files[k].path@);
        assert(u[q].path == kept[q].path@);
        assert(u.contains(u[q]));
        assert(u.to_multiset().count(u[q]) > 0);
        assert(lib.contains(u[q]));
        let i = choose|i: int| 0 <= i < lib.len() && lib[i] == u[q];
        assert(same_path(lib[i].path, files[k].path@));
    }
}

}
