//! Messages of the explore page: loading the online catalogues page by
//! page, their filters, and downloads.
use vstd::prelude::*;
use crate::online::models::{OnlineItemView, OnlineSource, OnlineWallpaperItem, items_view, short_id_sliceable, wallpaper_filename_spec};
use crate::online::cache::clean_filename_spec;
use crate::paths::join;
use crate::state::{AppState, Effects, FollowUp, Notice};
use crate::state::library::name_or_empty;
use crate::state::playback::video_index;
use crate::strlist::{push_absent, push_unique, remove_all, views, without};
use crate::text::{concat2, concat3, owned, str_eq, str_trim, trim};

verus! {

/// A catalogue request: the source, the page, the search text (none when
/// blank), the Wallhaven category, sorting and resolution, and whether it
/// extends the list (`true`) or replaces it.
pub struct FetchRequest {
    pub source: OnlineSource,
    pub page: u32,
    pub search: Option<String>,
    pub category: String,
    pub sorting: String,
    pub resolution: String,
    pub more: bool,
}

/// A download: the item's id, the file's URL, where it goes, where its
/// cached thumbnail is, and whether it is applied once downloaded.
pub struct DownloadRequest {
    pub id: String,
    pub url: String,
    pub dest: String,
    pub thumb_src: String,
    pub auto_apply: bool,
}

/// The items of `new` whose id is not among `list` (nor among earlier new
/// items), appended in order.
pub open spec fn merge_items(list: Seq<OnlineItemView>, new: Seq<OnlineItemView>) -> Seq<OnlineItemView>
    decreases new.len(),
{
    if new.len() == 0 {
        list
    } else {
        let m = merge_items(list, new.drop_last());
        let it = new.last();
        if exists|i: int| 0 <= i < m.len() && #[trigger] m[i].id == it.id {
            m
        } else {
            m.push(it)
        }
    }
}

/// No two items share an id.
pub open spec fn distinct_ids(list: Seq<OnlineItemView>) -> bool {
    forall|i: int, j: int| 0 <= i < j < list.len() ==> #[trigger] list[i].id != #[trigger] list[j].id
}

/// Loading more items never lists an id twice.
pub proof fn lemma_merge_distinct(list: Seq<OnlineItemView>, new: Seq<OnlineItemView>)
    requires
        distinct_ids(list),
    ensures
        distinct_ids(merge_items(list, new)),
        merge_items(list, new).len() >= list.len(),
        forall|i: int| 0 <= i < list.len() ==> #[trigger] merge_items(list, new)[i] == list[i],
    decreases new.len(),
{
    if new.len() > 0 {
        lemma_merge_distinct(list, new.drop_last());
        let m = merge_items(list, new.drop_last());
        let it = new.last();
        if !(exists|i: int| 0 <= i < m.len() && #[trigger] m[i].id == it.id) {
            assert forall|i: int, j: int| 0 <= i < j < m.push(it).len() implies #[trigger] m.push(it)[i].id != #[trigger] m.push(it)[j].id by {
                if j == m.len() {
                    assert(m.push(it)[i] == m[i]);
                }
            }
        }
    }
}

/// Whether the state lists an item with this id for the source.
fn has_item(list: &Vec<OnlineWallpaperItem>, id: &str) -> (b: bool)
    ensures
        b == exists|i: int| 0 <= i < list@.len() && #[trigger] list@[i].id@ == id@,
{
    let mut i: usize = 0;
    while i < list.len()
        invariant
            i <= list.len(),
            forall|j: int| 0 <= j < i ==> list@[j].id@ != id@,
        decreases list.len() - i,
    {
        if str_eq(list[i].id.as_str(), id) {
            return true;
        }
        i = i + 1;
    }
    false
}

/// Appends the items whose id is new; see `merge_items`. Returns how many
/// were appended.
fn merge_into(list: &mut Vec<OnlineWallpaperItem>, items: Vec<OnlineWallpaperItem>) -> (added: usize)
    ensures
        items_view(final(list)@) == merge_items(items_view(old(list)@), items_view(items@)),
        final(list)@.len() == old(list)@.len() + added,
{
    let mut rest = items;
    let ghost all = items_view(rest@);
    let ghost start = items_view(list@);
    let ghost mut k: int = 0;
    let start_len = list.len();
    proof {
        assert(all.take(0) =~= Seq::<OnlineItemView>::empty());
        assert(all.skip(0) =~= all);
    }
    while rest.len() > 0
        invariant
            0 <= k <= all.len(),
            items_view(rest@) == all.skip(k as int),
            items_view(list@) == merge_items(start, all.take(k as int)),
            start == items_view(old(list)@),
            all == items_view(items@),
            list@.len() >= old(list)@.len(),
            start_len == old(list)@.len(),
        decreases rest.len(),
    {
        proof {
            assert(items_view(rest@).len() == rest@.len());
            assert(k < all.len());
        }
        let ghost rest_before = rest@;
        let item = rest.remove(0);
        proof {
            assert(items_view(rest_before)[0] == item@);
            assert(all.skip(k as int)[0] == item@);
            assert forall|j: int| 0 <= j < rest@.len() implies #[trigger] items_view(rest@)[j] == all.skip(k + 1)[j] by {
                assert(rest@[j] == rest_before[j + 1]);
                assert(items_view(rest_before)[j + 1] == rest_before[j + 1]@);
                assert(all.skip(k as int)[j + 1] == all.skip(k + 1)[j]);
            }
            assert(items_view(rest@) =~= all.skip(k + 1));
            assert(all.take(k + 1).drop_last() =~= all.take(k as int));
            assert(all.take(k + 1).last() == item@);
        }
        let ghost iv = item@;
        let ghost m = merge_items(start, all.take(k as int));
        proof {
            assert(all.take(k + 1).len() > 0);
            assert(merge_items(start, all.take(k + 1)) == (if exists|i: int| 0 <= i < m.len() && #[trigger] m[i].id == iv.id { m } else { m.push(iv) }));
        }
        if !has_item(list, item.id.as_str()) {
            let ghost before = list@;
            proof {
                let m = merge_items(start, all.take(k as int));
                assert(!(exists|i: int| 0 <= i < m.len() && #[trigger] m[i].id == item@.id)) by {
                    if exists|i: int| 0 <= i < m.len() && #[trigger] m[i].id == item@.id {
                        let i = choose|i: int| 0 <= i < m.len() && #[trigger] m[i].id == item@.id;
                        assert(items_view(before)[i] == before[i]@);
                    }
                }
            }
            list.push(item);
            proof {
                assert(items_view(list@) =~= items_view(before).push(iv));
                assert(items_view(before) == m);
                assert(items_view(list@) == merge_items(start, all.take(k + 1)));
            }
        } else {
            proof {
                let m = merge_items(start, all.take(k as int));
                let i = choose|i: int| 0 <= i < list@.len() && #[trigger] list@[i].id@ == item.id@;
                assert(m[i] == list@[i]@);
                assert(m[i].id == iv.id);
                assert(items_view(list@) == merge_items(start, all.take(k + 1)));
            }
        }
        proof {
            k = k + 1;
        }
    }
    proof {
        assert(all.take(k as int) =~= all) by {
            assert(all.skip(k as int).len() == 0);
        }
    }
    list.len() - start_len
}

/// The page before a failed one (none before 0).
pub open spec fn page_back(p: u32) -> u32 {
    if p > 0 { (p - 1) as u32 } else { 0 }
}

/// A page that `load_more` asked for and that failed is given back: the
/// page number is where it was before the load, so the next load asks for
/// the same page.
pub proof fn lemma_failed_page_is_retried(p: u32)
    requires
        p < u32::MAX,
    ensures
        page_back((p + 1) as u32) == p,
{
}

impl AppState {
    /// The search text sent to Wallhaven: none when it is blank.
    fn search_param(&self) -> (r: Option<String>)
        ensures
            r == (if trim(self.wallhaven_search@).len() == 0 { None } else { Some(self.wallhaven_search) }),
    {
        let t = str_trim(self.wallhaven_search.as_str());
        if t.as_str().is_empty() {
            None
        } else {
            Some(self.wallhaven_search.clone())
        }
    }

    /// Shows another catalogue; its list loads when it is empty and
    /// nothing is loading.
    pub fn select_explore_source(&mut self, source: OnlineSource) -> (e: Effects)
        ensures
            *final(self) == (AppState { explore_source: source, ..*old(self) }),
            (crate::state::playback::need_fetch_spec(*old(self), source) && !old(self).explore_loading)
                ==> e.follow_up == Some(FollowUp::FetchOnlineWallpapers(source)),
            !(crate::state::playback::need_fetch_spec(*old(self), source) && !old(self).explore_loading) ==> e.follow_up is None,
            !e.save_config && e.autostart is None && e.engine@.len() == 0 && e.wallpapers@.len() == 0 && !e.rescan
                && e.tray is None && e.theme is None && e.notice is None,
    {
        self.explore_source = source;
        let mut e = Effects::none();
        if self.need_fetch(source) && !self.explore_loading {
            e.follow_up = Some(FollowUp::FetchOnlineWallpapers(source));
        }
        e
    }

    /// Loads the first page of a catalogue: loading starts and the last
    /// error is cleared.
    pub fn fetch_online(&mut self, source: OnlineSource) -> (r: FetchRequest)
        ensures
            *final(self) == (AppState { explore_loading: true, explore_error: None, ..*old(self) }),
            r.source == source && r.page == 1 && !r.more,
            r.search == (if trim(old(self).wallhaven_search@).len() == 0 { None } else { Some(old(self).wallhaven_search) }),
            r.category == old(self).wallhaven_category && r.sorting == old(self).wallhaven_sorting && r.resolution == old(self).wallhaven_resolution,
    {
        self.explore_loading = true;
        self.explore_error = None;
        FetchRequest {
            source,
            page: 1,
            search: self.search_param(),
            category: self.wallhaven_category.clone(),
            sorting: self.wallhaven_sorting.clone(),
            resolution: self.wallhaven_resolution.clone(),
            more: false,
        }
    }

    /// A first page arrived: loading ends; the items replace the source's
    /// list and the error is cleared, or the error is kept. Returns the
    /// source whose list was replaced (its items then get thumbnails).
    pub fn online_fetched(&mut self, result: Result<(OnlineSource, Vec<OnlineWallpaperItem>), String>) -> (r: Option<OnlineSource>)
        ensures
            match result {
                Ok((source, items)) => match source {
                    OnlineSource::Bing => r == Some(source) && *final(self) == (AppState { explore_loading: false, bing_wallpapers: items, explore_error: None, ..*old(self) }),
                    OnlineSource::Wallhaven => r == Some(source) && *final(self) == (AppState { explore_loading: false, wallhaven_wallpapers: items, explore_error: None, ..*old(self) }),
                    _ => r is None && *final(self) == (AppState { explore_loading: false, explore_error: None, ..*old(self) }),
                },
                Err(err) => r is None && *final(self) == (AppState { explore_loading: false, explore_error: Some(err), ..*old(self) }),
            },
    {
        self.explore_loading = false;
        match result {
            Ok((source, items)) => {
                self.explore_error = None;
                match source {
                    OnlineSource::Bing => {
                        self.bing_wallpapers = items;
                        Some(source)
                    },
                    OnlineSource::Wallhaven => {
                        self.wallhaven_wallpapers = items;
                        Some(source)
                    },
                    _ => None,
                }
            },
            Err(err) => {
                self.explore_error = Some(err);
                None
            },
        }
    }

    /// Loads the next page of the shown catalogue, unless a load is under
    /// way: the page number grows by one and more items are being loaded.
    /// Only Bing (24 per archive page) and Wallhaven load more.
    pub fn load_more(&mut self) -> (r: Option<FetchRequest>)
        requires
            old(self).explore_source == OnlineSource::Bing ==> old(self).bing_page < u32::MAX,
            old(self).explore_source == OnlineSource::Wallhaven ==> old(self).wallhaven_page < u32::MAX,
        ensures
            (old(self).explore_loading_more || old(self).explore_loading) ==> r is None && *final(self) == *old(self),
            !(old(self).explore_loading_more || old(self).explore_loading) ==> match old(self).explore_source {
                OnlineSource::Bing => {
                    &&& *final(self) == (AppState { explore_loading_more: true, bing_page: (old(self).bing_page + 1) as u32, ..*old(self) })
                    &&& r matches Some(q) && q.source == OnlineSource::Bing && q.page == old(self).bing_page + 1 && q.more
                },
                OnlineSource::Wallhaven => {
                    &&& *final(self) == (AppState { explore_loading_more: true, wallhaven_page: (old(self).wallhaven_page + 1) as u32, ..*old(self) })
                    &&& r matches Some(q) && q.source == OnlineSource::Wallhaven && q.page == old(self).wallhaven_page + 1 && q.more
                        && q.search == (if trim(old(self).wallhaven_search@).len() == 0 { None } else { Some(old(self).wallhaven_search) })
                        && q.category == old(self).wallhaven_category && q.sorting == old(self).wallhaven_sorting
                        && q.resolution == old(self).wallhaven_resolution
                },
                _ => r is None && *final(self) == *old(self),
            },
    {
        if self.explore_loading_more || self.explore_loading {
            return None;
        }
        match self.explore_source {
            OnlineSource::Bing => {
                self.explore_loading_more = true;
                self.bing_page = self.bing_page + 1;
                Some(FetchRequest {
                    source: OnlineSource::Bing,
                    page: self.bing_page,
                    search: None,
                    category: self.wallhaven_category.clone(),
                    sorting: self.wallhaven_sorting.clone(),
                    resolution: self.wallhaven_resolution.clone(),
                    more: true,
                })
            },
            OnlineSource::Wallhaven => {
                self.explore_loading_more = true;
                self.wallhaven_page = self.wallhaven_page + 1;
                Some(FetchRequest {
                    source: OnlineSource::Wallhaven,
                    page: self.wallhaven_page,
                    search: self.search_param(),
                    category: self.wallhaven_category.clone(),
                    sorting: self.wallhaven_sorting.clone(),
                    resolution: self.wallhaven_resolution.clone(),
                    more: true,
                })
            },
            _ => None,
        }
    }

    /// More items arrived: loading ends; items with a new id are appended
    /// to the source's list (the count of appended items is returned, they
    /// then get thumbnails). A failed page of a source is given back (its
    /// page number goes back by one, so that the next load asks for it
    /// again) and the error is shown for five seconds.
    pub fn more_fetched(&mut self, result: Result<(OnlineSource, Vec<OnlineWallpaperItem>), (OnlineSource, String)>) -> (added: usize)
        ensures
            match result {
                Ok((source, items)) => match source {
                    OnlineSource::Bing => {
                        &&& items_view(final(self).bing_wallpapers@) == merge_items(items_view(old(self).bing_wallpapers@), items_view(items@))
                        &&& final(self).bing_wallpapers@.len() == old(self).bing_wallpapers@.len() + added
                        &&& *final(self) == (AppState { explore_loading_more: false, bing_wallpapers: final(self).bing_wallpapers, ..*old(self) })
                    },
                    OnlineSource::Wallhaven => {
                        &&& items_view(final(self).wallhaven_wallpapers@) == merge_items(items_view(old(self).wallhaven_wallpapers@), items_view(items@))
                        &&& final(self).wallhaven_wallpapers@.len() == old(self).wallhaven_wallpapers@.len() + added
                        &&& *final(self) == (AppState { explore_loading_more: false, wallhaven_wallpapers: final(self).wallhaven_wallpapers, ..*old(self) })
                    },
                    _ => added == 0 && *final(self) == (AppState { explore_loading_more: false, ..*old(self) }),
                },
                Err((source, err)) => {
                    &&& added == 0
                    &&& *final(self) == (AppState {
                        explore_loading_more: false,
                        bing_page: if source == OnlineSource::Bing { page_back(old(self).bing_page) } else { old(self).bing_page },
                        wallhaven_page: if source == OnlineSource::Wallhaven { page_back(old(self).wallhaven_page) } else { old(self).wallhaven_page },
                        status_message: final(self).status_message,
                        status_timer: 5,
                        ..*old(self)
                    })
                    &&& final(self).status_message matches Some(m) && m@ == "Error: "@ + err@
                },
            },
    {
        self.explore_loading_more = false;
        match result {
            Ok((source, items)) => match source {
                OnlineSource::Bing => merge_into(&mut self.bing_wallpapers, items),
                OnlineSource::Wallhaven => merge_into(&mut self.wallhaven_wallpapers, items),
                _ => 0,
            },
            Err((source, err)) => {
                match source {
                    OnlineSource::Bing => {
                        if self.bing_page > 0 {
                            self.bing_page = self.bing_page - 1;
                        }
                    },
                    OnlineSource::Wallhaven => {
                        if self.wallhaven_page > 0 {
                            self.wallhaven_page = self.wallhaven_page - 1;
                        }
                    },
                    _ => {},
                }
                let text = concat2("Error: ", err.as_str());
                self.set_timed_status(text);
                0
            },
        }
    }

    /// Another Wallhaven category: when it differs, it is kept, the list
    /// restarts from page 1 and loads again.
    pub fn select_wallhaven_category(&mut self, cat: String) -> (f: Option<FollowUp>)
        ensures
            old(self).wallhaven_category@ == cat@ ==> f is None && *final(self) == *old(self),
            old(self).wallhaven_category@ != cat@ ==> f == Some(FollowUp::FetchOnlineWallpapers(OnlineSource::Wallhaven))
                && final(self).wallhaven_wallpapers@.len() == 0
                && *final(self) == (AppState { wallhaven_category: cat, wallhaven_page: 1, wallhaven_wallpapers: final(self).wallhaven_wallpapers, ..*old(self) }),
    {
        if !str_eq(self.wallhaven_category.as_str(), cat.as_str()) {
            self.wallhaven_category = cat;
            self.wallhaven_page = 1;
            self.wallhaven_wallpapers.clear();
            Some(FollowUp::FetchOnlineWallpapers(OnlineSource::Wallhaven))
        } else {
            None
        }
    }

    /// Another Wallhaven sorting: when it differs, it is kept, the list
    /// restarts from page 1 and loads again.
    pub fn select_wallhaven_sorting(&mut self, sort: String) -> (f: Option<FollowUp>)
        ensures
            old(self).wallhaven_sorting@ == sort@ ==> f is None && *final(self) == *old(self),
            old(self).wallhaven_sorting@ != sort@ ==> f == Some(FollowUp::FetchOnlineWallpapers(OnlineSource::Wallhaven))
                && final(self).wallhaven_wallpapers@.len() == 0
                && *final(self) == (AppState { wallhaven_sorting: sort, wallhaven_page: 1, wallhaven_wallpapers: final(self).wallhaven_wallpapers, ..*old(self) }),
    {
        if !str_eq(self.wallhaven_sorting.as_str(), sort.as_str()) {
            self.wallhaven_sorting = sort;
            self.wallhaven_page = 1;
            self.wallhaven_wallpapers.clear();
            Some(FollowUp::FetchOnlineWallpapers(OnlineSource::Wallhaven))
        } else {
            None
        }
    }

    /// Another Wallhaven resolution: when it differs, it is kept, the list
    /// restarts from page 1 and loads again.
    pub fn select_wallhaven_resolution(&mut self, res: String) -> (f: Option<FollowUp>)
        ensures
            old(self).wallhaven_resolution@ == res@ ==> f is None && *final(self) == *old(self),
            old(self).wallhaven_resolution@ != res@ ==> f == Some(FollowUp::FetchOnlineWallpapers(OnlineSource::Wallhaven))
                && final(self).wallhaven_wallpapers@.len() == 0
                && *final(self) == (AppState { wallhaven_resolution: res, wallhaven_page: 1, wallhaven_wallpapers: final(self).wallhaven_wallpapers, ..*old(self) }),
    {
        if !str_eq(self.wallhaven_resolution.as_str(), res.as_str()) {
            self.wallhaven_resolution = res;
            self.wallhaven_page = 1;
            self.wallhaven_wallpapers.clear();
            Some(FollowUp::FetchOnlineWallpapers(OnlineSource::Wallhaven))
        } else {
            None
        }
    }

    /// The Wallhaven search text changed.
    pub fn wallhaven_search_changed(&mut self, q: String)
        ensures
            *final(self) == (AppState { wallhaven_search: q, ..*old(self) }),
    {
        self.wallhaven_search = q;
    }

    /// The Wallhaven search was submitted: the list restarts from page 1
    /// and loads again.
    pub fn submit_wallhaven_search(&mut self) -> (f: FollowUp)
        ensures
            f == FollowUp::FetchOnlineWallpapers(OnlineSource::Wallhaven),
            final(self).wallhaven_wallpapers@.len() == 0,
            *final(self) == (AppState { wallhaven_page: 1, wallhaven_wallpapers: final(self).wallhaven_wallpapers, ..*old(self) }),
    {
        self.wallhaven_page = 1;
        self.wallhaven_wallpapers.clear();
        FollowUp::FetchOnlineWallpapers(OnlineSource::Wallhaven)
    }

    /// A thumbnail of an online item is on disk.
    pub fn online_thumb_loaded(&mut self, id: String, path: String)
        requires
            old(self).wf(),
        ensures
            final(self).wf(),
            final(self).online_thumbs@ == old(self).online_thumbs@.insert(id@, path@),
            *final(self) == (AppState { online_thumbs: final(self).online_thumbs, ..*old(self) }),
    {
        self.online_thumbs.insert(id, path);
    }

    /// Starts downloading an online wallpaper into the folder of downloads:
    /// the item is marked as downloading; its cached thumbnail (in
    /// `thumbs_dir`) is copied to the new file's thumbnail afterwards.
    pub fn download_online(&mut self, item: &OnlineWallpaperItem, auto_apply: bool, online_dir: &str, thumbs_dir: &str) -> (r: DownloadRequest)
        requires
            short_id_sliceable(item@),
        ensures
            views(final(self).downloading_online_ids@) == push_absent(views(old(self).downloading_online_ids@), item.id@),
            *final(self) == (AppState { downloading_online_ids: final(self).downloading_online_ids, ..*old(self) }),
            r.id@ == item.id@ && r.url@ == item.full_url@ && r.auto_apply == auto_apply,
            r.dest@ == join(online_dir@, wallpaper_filename_spec(item@)),
            r.thumb_src@ == join(thumbs_dir@, clean_filename_spec(crate::online::models::source_prefix_spec(item.source), item.id@, crate::online::models::url_extension(item.thumb_url@))),
    {
        push_unique(&mut self.downloading_online_ids, item.id.clone());
        DownloadRequest {
            id: item.id.clone(),
            url: item.full_url.clone(),
            dest: item.local_wallpaper_path(online_dir),
            thumb_src: item.local_thumb_path(thumbs_dir),
            auto_apply,
        }
    }

    /// A download finished: the item is no longer downloading, the library
    /// is scanned again and the settings saved, and a notification offers to
    /// show the file.
    pub fn online_downloaded(&mut self, id: &str, path: &str) -> (e: Effects)
        ensures
            views(final(self).downloading_online_ids@) == without(views(old(self).downloading_online_ids@), id@),
            *final(self) == (AppState { downloading_online_ids: final(self).downloading_online_ids, ..*old(self) }),
            e.save_config && e.rescan,
            e.notice matches Some(n) && n.text@ == old(self).language.pick("Fondo descargado con éxito"@, "Wallpaper downloaded successfully"@) + ": "@ + name_or_empty(path@)
                && (n.action matches Some(a) && a.0@ == old(self).language.pick("Ver en archivos"@, "Show in files"@) && a.1 == FollowUp::OpenWallpapersFolder),
            e.autostart is None && e.engine@.len() == 0 && e.wallpapers@.len() == 0 && e.tray is None && e.theme is None && e.follow_up is None,
    {
        remove_all(&mut self.downloading_online_ids, id);
        let name = match crate::paths::path_file_name(path) {
            Some(n) => crate::text::string_of(&n),
            None => String::new(),
        };
        let text = concat3(self.language.explore_toast_downloaded(), ": ", name.as_str());
        let mut e = Effects::none();
        e.save_config = true;
        e.rescan = true;
        e.notice = Some(Notice { text, action: Some((owned(self.language.toast_show_in_files()), FollowUp::OpenWallpapersFolder)) });
        e
    }

    /// After the scan that follows a download: whether the new file needs a
    /// thumbnail (its library entry has none), and the follow-up that
    /// applies it when it was downloaded to be applied.
    pub fn after_download_scan(&self, path: String, auto_apply: bool) -> (r: (bool, Option<FollowUp>))
        ensures
            r.0 == (match video_index(self.videos@, path@) { Some(i) => self.videos@[i].thumb_path is None, None => false }),
            r.1 == (if auto_apply { Some(FollowUp::ApplyDownloadedOnlineWallpaper(path)) } else { None }),
    {
        let needs = match crate::state::playback::find_video(&self.videos, path.as_str()) {
            Some(i) => self.videos[i].thumb_path.is_none(),
            None => false,
        };
        (needs, if auto_apply { Some(FollowUp::ApplyDownloadedOnlineWallpaper(path)) } else { None })
    }

    /// A download failed: the item is no longer downloading and the error
    /// is shown for five seconds.
    pub fn download_failed(&mut self, id: &str, error: &str)
        ensures
            views(final(self).downloading_online_ids@) == without(views(old(self).downloading_online_ids@), id@),
            *final(self) == (AppState { downloading_online_ids: final(self).downloading_online_ids, status_message: final(self).status_message, status_timer: 5, ..*old(self) }),
            final(self).status_message matches Some(m) && m@ == old(self).language.pick("No se pudo conectar con el catálogo en línea:"@, "Could not connect to online catalog:"@) + " "@ + error@,
    {
        remove_all(&mut self.downloading_online_ids, id);
        let text = concat3(self.language.explore_error_prefix(), " ", error);
        self.set_timed_status(text);
    }

    /// Applies a downloaded wallpaper to the selected output.
    pub fn apply_downloaded(&self, path: String) -> (f: FollowUp)
        ensures
            f == (FollowUp::ApplyWallpaper { video_path: path, output: self.selected_output }),
    {
        FollowUp::ApplyWallpaper { video_path: path, output: self.selected_output.clone() }
    }
}

} // verus!
