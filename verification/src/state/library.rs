//! Messages about the library: adding and removing files and folders, and
//! which entries the library page lists.
use vstd::prelude::*;
use crate::config::Config;
use crate::paths::{extension, file_name, path_extension, path_file_name, path_has_base, path_starts_with};
use crate::scanner::{VideoItem, is_image_path, is_supported_wallpaper_ext, path_is_image, supported_ext};
use crate::state::{AppState, EngineOp, Effects, FollowUp, LibraryFilter, plain_notice, status_of_notice};
use crate::strmap::drop_value;
use crate::strlist::{copy_list, contains_str, push_absent, push_unique, remove_all, views, without};
use crate::text::{concat3, contains_seq, owned, str_contains, str_trim, string_of, trim};
use crate::unicode::{lowercase, to_lowercase};

verus! {

/// The file name of a path, or nothing.
pub open spec fn name_or_empty(p: Seq<char>) -> Seq<char> {
    match file_name(p) { Some(n) => n, None => seq![] }
}

fn name_or_empty_exec(p: &str) -> (r: String)
    ensures
        r@ == name_or_empty(p@),
{
    match path_file_name(p) {
        Some(n) => string_of(&n),
        None => String::new(),
    }
}

/// How a newly added file is applied: an image at once, a video after its
/// thumbnail was made.
pub open spec fn apply_added_spec(path: String, output: String) -> FollowUp {
    if path_is_image(path@) {
        FollowUp::ApplyWallpaper { video_path: path, output: output }
    } else {
        FollowUp::ThumbnailThenApply { video_path: path, output: output }
    }
}

fn apply_added(path: String, output: String) -> (r: FollowUp)
    ensures
        r == apply_added_spec(path, output),
{
    if is_image_path(path.as_str()) {
        FollowUp::ApplyWallpaper { video_path: path, output }
    } else {
        FollowUp::ThumbnailThenApply { video_path: path, output }
    }
}

/// Dropped files, in order: each with a supported extension that the
/// library does not hold yet is added; gives the new list, whether any was
/// added, and the last one added.
pub open spec fn dropped_fold(custom: Seq<Seq<char>>, paths: Seq<Seq<char>>) -> (Seq<Seq<char>>, Option<Seq<char>>)
    decreases paths.len(),
{
    if paths.len() == 0 {
        (custom, None)
    } else {
        let (c, last) = dropped_fold(custom, paths.drop_last());
        let p = paths.last();
        if (match extension(p) { Some(e) => supported_ext(e), None => false }) && !c.contains(p) {
            (c.push(p), Some(p))
        } else {
            (c, last)
        }
    }
}

/// The library entries that the page lists, as positions: those of the
/// chosen kind whose lower-case name holds the lower-case search text (after
/// trimming; an empty search holds everything).
pub open spec fn listed_spec(videos: Seq<VideoItem>, filter: LibraryFilter, search: Seq<char>) -> Seq<int>
    decreases videos.len(),
{
    if videos.len() == 0 {
        seq![]
    } else {
        let rest = listed_spec(videos.drop_last(), filter, search);
        let v = videos.last();
        let kind = match filter {
            LibraryFilter::All => true,
            LibraryFilter::Live => v.is_video,
            LibraryFilter::Static => !v.is_video,
            LibraryFilter::Downloaded => v.is_downloaded,
        };
        let q = trim(search);
        if kind && (q.len() == 0 || contains_seq(v.name_lower@, lowercase(q))) {
            rest.push(videos.len() - 1)
        } else {
            rest
        }
    }
}

/// The files of the entries without a thumbnail, in order.
pub open spec fn missing_thumbs_spec(videos: Seq<VideoItem>) -> Seq<Seq<char>>
    decreases videos.len(),
{
    if videos.len() == 0 {
        seq![]
    } else if videos.last().thumb_path is None {
        missing_thumbs_spec(videos.drop_last()).push(videos.last().path@)
    } else {
        missing_thumbs_spec(videos.drop_last())
    }
}

/// The current wallpaper, or none when it is `path`.
pub open spec fn unset_if(current: Option<String>, path: Seq<char>) -> Option<String> {
    match current {
        Some(c) => if c@ == path { None } else { Some(c) },
        None => None,
    }
}

fn unset_current(current: &Option<String>, path: &str) -> (r: Option<String>)
    ensures
        r == unset_if(*current, path@),
{
    match current {
        Some(c) => if crate::text::str_eq(c.as_str(), path) { None } else { Some(c.clone()) },
        None => None,
    }
}

/// `keys` are exactly the keys of the map whose value is `v`.
pub open spec fn keys_with_value(m: Map<Seq<char>, Seq<char>>, v: Seq<char>, keys: Seq<Seq<char>>) -> bool {
    &&& forall|i: int| 0 <= i < keys.len() ==> #[trigger] m.dom().contains(keys[i]) && m[keys[i]] == v
    &&& forall|k: Seq<char>| #[trigger] m.dom().contains(k) && m[k] == v ==> keys.contains(k)
}

/// How many entries satisfy a predicate on (is video, is downloaded).
pub open spec fn count_kind(videos: Seq<VideoItem>, which: int) -> nat
    decreases videos.len(),
{
    if videos.len() == 0 {
        0
    } else {
        let v = videos.last();
        let hit = if which == 0 { true } else if which == 1 { v.is_video } else if which == 2 { !v.is_video } else { v.is_downloaded };
        count_kind(videos.drop_last(), which) + if hit { 1nat } else { 0nat }
    }
}

/// Every entry is live or static, never both: the counts of the filter
/// buttons add up.
pub proof fn lemma_counts_add_up(videos: Seq<VideoItem>)
    ensures
        count_kind(videos, 0) == count_kind(videos, 1) + count_kind(videos, 2),
        count_kind(videos, 3) <= count_kind(videos, 0),
    decreases videos.len(),
{
    if videos.len() > 0 {
        lemma_counts_add_up(videos.drop_last());
    }
}

/// Adds the dropped files to the list; see `dropped_fold`. Returns the
/// last one added.
fn add_dropped(custom: &mut Vec<String>, paths: &Vec<String>) -> (last: Option<String>)
    ensures
        views(final(custom)@) == dropped_fold(views(old(custom)@), views(paths@)).0,
        (match last { Some(l) => Some(l@), None => None }) == dropped_fold(views(old(custom)@), views(paths@)).1,
{
    let mut last: Option<String> = None;
    let ghost start = views(custom@);
    proof {
        assert(views(paths@).take(0) =~= Seq::<Seq<char>>::empty());
    }
    for i in 0..paths.len()
        invariant
            start == views(old(custom)@),
            views(custom@) == dropped_fold(start, views(paths@).take(i as int)).0,
            (match last { Some(l) => Some(l@), None => None }) == dropped_fold(start, views(paths@).take(i as int)).1,
    {
        proof {
            assert(views(paths@).take(i + 1).drop_last() =~= views(paths@).take(i as int));
            assert(views(paths@).take(i + 1).last() == paths@[i as int]@);
        }
        let p = paths[i].as_str();
        let supported = match path_extension(p) {
            Some(ext) => {
                let ext_s = string_of(&ext);
                is_supported_wallpaper_ext(ext_s.as_str())
            },
            None => false,
        };
        if supported && !contains_str(custom, p) {
            push_unique(custom, paths[i].clone());
            last = Some(paths[i].clone());
        }
    }
    proof {
        assert(views(paths@).take(paths@.len() as int) =~= views(paths@));
    }
    last
}

/// When no dropped file was added the list is unchanged.
pub proof fn lemma_dropped_none(custom: Seq<Seq<char>>, paths: Seq<Seq<char>>)
    ensures
        dropped_fold(custom, paths).1 is None ==> dropped_fold(custom, paths).0 == custom,
    decreases paths.len(),
{
    if paths.len() > 0 {
        lemma_dropped_none(custom, paths.drop_last());
    }
}

/// The outputs that a list of player requests stops (all of them must be
/// `StopOutput`).
pub open spec fn stop_targets(ops: Seq<EngineOp>) -> Seq<Seq<char>> {
    ops.map_values(|op: EngineOp| match op { EngineOp::StopOutput(o) => o@, _ => seq![] })
}

/// Every request stops one output.
pub open spec fn only_stops(ops: Seq<EngineOp>) -> bool {
    forall|i: int| 0 <= i < ops.len() ==> #[trigger] ops[i] is StopOutput
}

fn stop_ops(outputs: &Vec<String>) -> (r: Vec<EngineOp>)
    ensures
        only_stops(r@),
        stop_targets(r@) == views(outputs@),
{
    let mut r: Vec<EngineOp> = Vec::new();
    for i in 0..outputs.len()
        invariant
            only_stops(r@),
            stop_targets(r@) == views(outputs@).take(i as int),
    {
        let ghost before = r@;
        let op = EngineOp::StopOutput(outputs[i].clone());
        r.push(op);
        proof {
            assert(stop_targets(r@) =~= stop_targets(before).push(outputs@[i as int]@));
            assert(views(outputs@).take(i + 1) =~= views(outputs@).take(i as int).push(outputs@[i as int]@));
        }
    }
    proof {
        assert(views(outputs@).take(outputs@.len() as int) =~= views(outputs@));
    }
    r
}

/// Adding dropped files never puts a file twice in the library.
pub proof fn lemma_dropped_no_repeats(custom: Seq<Seq<char>>, paths: Seq<Seq<char>>)
    requires
        crate::engine::player::distinct_seq(custom),
    ensures
        crate::engine::player::distinct_seq(dropped_fold(custom, paths).0),
    decreases paths.len(),
{
    if paths.len() > 0 {
        lemma_dropped_no_repeats(custom, paths.drop_last());
        let (c, _) = dropped_fold(custom, paths.drop_last());
        crate::engine::player::lemma_push_absent_distinct(c, paths.last());
    }
}

impl AppState {
    /// The library was scanned again.
    pub fn set_videos(&mut self, videos: Vec<VideoItem>)
        ensures
            *final(self) == (AppState { videos: videos, ..*old(self) }),
    {
        self.videos = videos;
    }

    /// The counts of the filter buttons: all, live, static, downloaded.
    pub fn library_counts(&self) -> (r: (usize, usize, usize, usize))
        ensures
            r.0 == count_kind(self.videos@, 0),
            r.1 == count_kind(self.videos@, 1),
            r.2 == count_kind(self.videos@, 2),
            r.3 == count_kind(self.videos@, 3),
    {
        let mut all: usize = 0;
        let mut live: usize = 0;
        let mut stat: usize = 0;
        let mut down: usize = 0;
        proof {
            assert(self.videos@.take(0) =~= Seq::<VideoItem>::empty());
        }
        for i in 0..self.videos.len()
            invariant
                all == count_kind(self.videos@.take(i as int), 0),
                live == count_kind(self.videos@.take(i as int), 1),
                stat == count_kind(self.videos@.take(i as int), 2),
                down == count_kind(self.videos@.take(i as int), 3),
                all == i,
                live <= i && stat <= i && down <= i,
        {
            proof {
                assert(self.videos@.take(i + 1).drop_last() =~= self.videos@.take(i as int));
                lemma_counts_add_up(self.videos@.take(i as int));
            }
            all = all + 1;
            if self.videos[i].is_video {
                live = live + 1;
            } else {
                stat = stat + 1;
            }
            if self.videos[i].is_downloaded {
                down = down + 1;
            }
        }
        proof {
            assert(self.videos@.take(self.videos@.len() as int) =~= self.videos@);
        }
        (all, live, stat, down)
    }

    /// The positions of the entries that the library page lists; see
    /// `listed_spec`.
    pub fn listed_videos(&self) -> (r: Vec<usize>)
        ensures
            r@.map_values(|i: usize| i as int) == listed_spec(self.videos@, self.library_filter, self.search_query@),
    {
        let q = str_trim(self.search_query.as_str());
        let ql = to_lowercase(q.as_str());
        let mut r: Vec<usize> = Vec::new();
        proof {
            assert(self.videos@.take(0) =~= Seq::<VideoItem>::empty());
        }
        for i in 0..self.videos.len()
            invariant
                q@ == trim(self.search_query@),
                ql@ == lowercase(q@),
                r@.map_values(|k: usize| k as int) == listed_spec(self.videos@.take(i as int), self.library_filter, self.search_query@),
        {
            proof {
                assert(self.videos@.take(i + 1).drop_last() =~= self.videos@.take(i as int));
            }
            let v = &self.videos[i];
            let kind = match self.library_filter {
                LibraryFilter::All => true,
                LibraryFilter::Live => v.is_video,
                LibraryFilter::Static => !v.is_video,
                LibraryFilter::Downloaded => v.is_downloaded,
            };
            if kind && (q.as_str().is_empty() || str_contains(v.name_lower.as_str(), ql.as_str())) {
                let ghost before = r@;
                r.push(i);
                proof {
                    assert(r@.map_values(|k: usize| k as int) =~= before.map_values(|k: usize| k as int).push(i as int));
                }
            }
        }
        proof {
            assert(self.videos@.take(self.videos@.len() as int) =~= self.videos@);
        }
        r
    }

    /// The files of library entries that have no thumbnail yet, in order.
    pub fn videos_missing_thumbs(&self) -> (r: Vec<String>)
        ensures
            views(r@) == missing_thumbs_spec(self.videos@),
    {
        let mut r: Vec<String> = Vec::new();
        proof {
            assert(self.videos@.take(0) =~= Seq::<VideoItem>::empty());
        }
        for i in 0..self.videos.len()
            invariant
                views(r@) == missing_thumbs_spec(self.videos@.take(i as int)),
        {
            proof {
                assert(self.videos@.take(i + 1).drop_last() =~= self.videos@.take(i as int));
            }
            if self.videos[i].thumb_path.is_none() {
                let ghost before = r@;
                let p = self.videos[i].path.clone();
                r.push(p);
                proof {
                    crate::strlist::lemma_views_push(before, p);
                }
            }
        }
        proof {
            assert(self.videos@.take(self.videos@.len() as int) =~= self.videos@);
        }
        r
    }

    /// A folder leaves the library: the settings forget it and are saved,
    /// the library is scanned again, and the removal is shown for five
    /// seconds.
    pub fn remove_folder(&mut self, folder: &str) -> (e: Effects)
        ensures
            views(final(self).config.dirs@) == without(views(old(self).config.dirs@), folder@),
            final(self).config == (Config { dirs: final(self).config.dirs, ..old(self).config }),
            *final(self) == (AppState { config: final(self).config, status_message: final(self).status_message, status_timer: 5, ..*old(self) }),
            final(self).status_message matches Some(m) && m@ == old(self).language.pick("Carpeta eliminada: "@ + folder@, "Folder removed: "@ + folder@),
            e.save_config && e.rescan,
            e.autostart is None && e.engine@.len() == 0 && e.wallpapers@.len() == 0 && e.tray is None && e.theme is None
                && e.notice is None && e.follow_up is None,
    {
        remove_all(&mut self.config.dirs, folder);
        let text = self.language.status_folder_removed(folder);
        self.set_timed_status(text);
        let mut e = Effects::none();
        e.save_config = true;
        e.rescan = true;
        e
    }

    /// The library is scanned again and that is shown for five seconds.
    pub fn refresh_library(&mut self) -> (e: Effects)
        ensures
            *final(self) == (AppState { status_message: final(self).status_message, status_timer: 5, ..*old(self) }),
            final(self).status_message matches Some(m) && m@ == old(self).language.pick("Biblioteca actualizada"@, "Library updated"@),
            e.rescan,
            !e.save_config && e.autostart is None && e.engine@.len() == 0 && e.wallpapers@.len() == 0 && e.tray is None
                && e.theme is None && e.notice is None && e.follow_up is None,
    {
        self.set_timed_status(owned(self.language.status_library_refreshed()));
        let mut e = Effects::none();
        e.rescan = true;
        e
    }

    /// A file was picked: it joins the library's own files unless it is
    /// there (then the settings are saved), the library is scanned again,
    /// the addition is shown for five seconds, and the file is applied to
    /// the selected output (a video after its thumbnail was made).
    pub fn file_selected(&mut self, path: String) -> (e: Effects)
        ensures
            views(final(self).config.custom_videos@) == push_absent(views(old(self).config.custom_videos@), path@),
            final(self).config == (Config { custom_videos: final(self).config.custom_videos, ..old(self).config }),
            *final(self) == (AppState { config: final(self).config, status_message: final(self).status_message, status_timer: 5, ..*old(self) }),
            final(self).status_message matches Some(m) && m@ == old(self).language.pick("Video añadido: "@ + name_or_empty(path@), "Video added: "@ + name_or_empty(path@)),
            e.save_config == !views(old(self).config.custom_videos@).contains(path@),
            e.rescan,
            e.follow_up == Some(apply_added_spec(path, old(self).selected_output)),
            e.autostart is None && e.engine@.len() == 0 && e.wallpapers@.len() == 0 && e.tray is None && e.theme is None
                && e.notice is None,
    {
        let added = push_unique(&mut self.config.custom_videos, path.clone());
        let name = name_or_empty_exec(path.as_str());
        let text = self.language.status_video_added(name.as_str());
        self.set_timed_status(text);
        let mut e = Effects::none();
        e.save_config = added;
        e.rescan = true;
        e.follow_up = Some(apply_added(path, self.selected_output.clone()));
        e
    }

    /// A folder was picked: it joins the library unless it is there (then
    /// the settings are saved), the library is scanned again (and then the
    /// entries without thumbnails get theirs), and the addition is shown for
    /// five seconds.
    pub fn folder_selected(&mut self, folder: String) -> (e: Effects)
        ensures
            views(final(self).config.dirs@) == push_absent(views(old(self).config.dirs@), folder@),
            final(self).config == (Config { dirs: final(self).config.dirs, ..old(self).config }),
            *final(self) == (AppState { config: final(self).config, status_message: final(self).status_message, status_timer: 5, ..*old(self) }),
            final(self).status_message matches Some(m) && m@ == old(self).language.pick("Carpeta añadida: "@ + folder@, "Folder added: "@ + folder@),
            e.save_config == !views(old(self).config.dirs@).contains(folder@),
            e.rescan,
            e.autostart is None && e.engine@.len() == 0 && e.wallpapers@.len() == 0 && e.tray is None && e.theme is None
                && e.notice is None && e.follow_up is None,
    {
        let text = self.language.status_folder_added(folder.as_str());
        let added = push_unique(&mut self.config.dirs, folder);
        self.set_timed_status(text);
        let mut e = Effects::none();
        e.save_config = added;
        e.rescan = true;
        e
    }

    /// Files were dropped on the window; see `dropped_fold`. When any was
    /// added the settings are saved, the library is scanned again, that is
    /// shown for five seconds, and the last added file is applied to the
    /// selected output (a video after its thumbnail was made).
    pub fn files_dropped(&mut self, paths: &Vec<String>) -> (e: Effects)
        ensures
            views(final(self).config.custom_videos@) == dropped_fold(views(old(self).config.custom_videos@), views(paths@)).0,
            final(self).config == (Config { custom_videos: final(self).config.custom_videos, ..old(self).config }),
            match dropped_fold(views(old(self).config.custom_videos@), views(paths@)).1 {
                Some(last) => {
                    &&& *final(self) == (AppState { config: final(self).config, status_message: final(self).status_message, status_timer: 5, ..*old(self) })
                    &&& final(self).status_message matches Some(m) && m@ == old(self).language.pick("Videos añadidos a la biblioteca"@, "Videos added to library"@)
                    &&& e.save_config && e.rescan
                    &&& e.follow_up matches Some(f) && (match f {
                        FollowUp::ApplyWallpaper { video_path, output } => video_path@ == last && path_is_image(last) && output == old(self).selected_output,
                        FollowUp::ThumbnailThenApply { video_path, output } => video_path@ == last && !path_is_image(last) && output == old(self).selected_output,
                        _ => false,
                    })
                },
                None => {
                    &&& *final(self) == *old(self)
                    &&& e.is_none()
                },
            },
            e.autostart is None && e.engine@.len() == 0 && e.wallpapers@.len() == 0 && e.tray is None && e.theme is None
                && e.notice is None,
    {
        let mut custom = copy_list(&self.config.custom_videos);
        let last = add_dropped(&mut custom, paths);
        proof {
            lemma_dropped_none(views(old(self).config.custom_videos@), views(paths@));
        }
        let mut e = Effects::none();
        match last {
            Some(l) => {
                self.config.custom_videos = custom;
                self.set_timed_status(owned(self.language.status_videos_dropped()));
                e.save_config = true;
                e.rescan = true;
                e.follow_up = Some(apply_added(l, self.selected_output.clone()));
            },
            None => {},
        }
        e
    }

    /// Forgets a file that is playing: every output showing it is stopped
    /// and forgotten, and it stops being the current wallpaper.
    fn forget_playing(&mut self, path: &str) -> (stopped: Vec<String>)
        requires
            old(self).wf(),
        ensures
            final(self).wf(),
            final(self).config.wallpapers@ == drop_value(old(self).config.wallpapers@, path@),
            final(self).config.current == unset_if(old(self).config.current, path@),
            final(self).config == (Config { wallpapers: final(self).config.wallpapers, current: final(self).config.current, ..old(self).config }),
            *final(self) == (AppState { config: final(self).config, ..*old(self) }),
            keys_with_value(old(self).config.wallpapers@, path@, views(stopped@)),
    {
        let stopped = self.config.wallpapers.remove_value(path);
        proof {
            assert forall|i: int| 0 <= i < views(stopped@).len() implies #[trigger] old(self).config.wallpapers@.dom().contains(views(stopped@)[i]) && old(self).config.wallpapers@[views(stopped@)[i]] == path@ by {
                assert(views(stopped@)[i] == stopped@[i]@);
            }
            assert forall|k: Seq<char>| #[trigger] old(self).config.wallpapers@.dom().contains(k) && old(self).config.wallpapers@[k] == path@ implies views(stopped@).contains(k) by {
                let i = choose|i: int| 0 <= i < stopped@.len() && stopped@[i]@ == k;
                assert(views(stopped@)[i] == k);
            }
        }
        self.config.current = unset_current(&self.config.current, path);
        stopped
    }

    /// Removes a file from the library's own files without deleting it: the
    /// outputs showing it are stopped and it stops being current; the
    /// settings are saved, the library is scanned again, and the removal is
    /// shown.
    pub fn remove_from_library(&mut self, path: &str) -> (e: Effects)
        requires
            old(self).wf(),
        ensures
            final(self).wf(),
            final(self).config.wallpapers@ == drop_value(old(self).config.wallpapers@, path@),
            final(self).config.current == (match old(self).config.current { Some(c) => if c@ == path@ { None } else { Some(c) }, None => None }),
            views(final(self).config.custom_videos@) == without(views(old(self).config.custom_videos@), path@),
            final(self).config == (Config { wallpapers: final(self).config.wallpapers, current: final(self).config.current, custom_videos: final(self).config.custom_videos, ..old(self).config }),
            *final(self) == (AppState { config: final(self).config, status_message: final(self).status_message, ..*old(self) }),
            only_stops(e.engine@),
            keys_with_value(old(self).config.wallpapers@, path@, stop_targets(e.engine@)),
            e.save_config && e.rescan,
            plain_notice(e.notice, old(self).language.pick("Fondo quitado de la biblioteca"@, "Wallpaper removed from library"@)),
            e.autostart is None && e.wallpapers@.len() == 0 && e.tray is None && e.theme is None && e.follow_up is None,
            status_of_notice(final(self).status_message, e.notice),
    {
        let stopped = self.forget_playing(path);
        let mut e = Effects::none();
        e.engine = stop_ops(&stopped);
        remove_all(&mut self.config.custom_videos, path);
        e.save_config = true;
        e.rescan = true;
        e.notice = Some(self.set_status(owned(self.language.library_removed_toast())));
        e
    }

    /// Deletes a downloaded wallpaper: the outputs showing it are stopped
    /// and it stops being current (the settings are not saved), the library
    /// is scanned again, and the deletion is shown with the file name. The
    /// second result tells whether the file may be deleted from disk: only
    /// inside the folder of downloads (and only when it is a file).
    pub fn delete_downloaded(&mut self, path: &str, online_dir: &str) -> (r: (Effects, bool))
        requires
            old(self).wf(),
        ensures
            final(self).wf(),
            final(self).config.wallpapers@ == drop_value(old(self).config.wallpapers@, path@),
            final(self).config.current == (match old(self).config.current { Some(c) => if c@ == path@ { None } else { Some(c) }, None => None }),
            final(self).config == (Config { wallpapers: final(self).config.wallpapers, current: final(self).config.current, ..old(self).config }),
            *final(self) == (AppState { config: final(self).config, status_message: final(self).status_message, ..*old(self) }),
            only_stops(r.0.engine@),
            keys_with_value(old(self).config.wallpapers@, path@, stop_targets(r.0.engine@)),
            r.1 == path_starts_with(path@, online_dir@),
            r.0.rescan && !r.0.save_config,
            plain_notice(r.0.notice, old(self).language.pick("Fondo eliminado de la biblioteca"@, "Wallpaper removed from library"@) + ": "@ + name_or_empty(path@)),
            r.0.autostart is None && r.0.wallpapers@.len() == 0 && r.0.tray is None && r.0.theme is None && r.0.follow_up is None,
            status_of_notice(final(self).status_message, r.0.notice),
    {
        let stopped = self.forget_playing(path);
        let mut e = Effects::none();
        e.engine = stop_ops(&stopped);
        let may_delete = path_has_base(path, online_dir);
        e.rescan = true;
        let name = name_or_empty_exec(path);
        let text = concat3(self.language.library_deleted_toast(), ": ", name.as_str());
        e.notice = Some(self.set_status(text));
        (e, may_delete)
    }

    /// Deleting from the library: a downloaded wallpaper (inside the folder
    /// of downloads) is deleted, any other file only leaves the library.
    pub fn delete_wallpaper(&self, path: String, online_dir: &str) -> (f: FollowUp)
        ensures
            f == (if path_starts_with(path@, online_dir@) { FollowUp::DeleteDownloadedWallpaper(path) } else { FollowUp::RemoveWallpaperFromLibrary(path) }),
    {
        if path_has_base(path.as_str(), online_dir) {
            FollowUp::DeleteDownloadedWallpaper(path)
        } else {
            FollowUp::RemoveWallpaperFromLibrary(path)
        }
    }
}

} // verus!
