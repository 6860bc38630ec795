//! Messages about what plays: applying, moving through the library,
//! pausing (by hand, during games, on battery), stopping, the window and the
//! tray.
use vstd::prelude::*;
use crate::config::Config;
use crate::engine::outputs::{MonitorOutput, outputs_view, same_outputs};

use crate::online::models::OnlineSource;
use crate::paths::{extension, file_name, file_stem, path_extension, path_file_name, path_file_stem, same_path};
use crate::playlist::{next_index, next_index_spec, prev_index, prev_index_spec};
use crate::scanner::{VideoItem, supported_ext, is_supported_wallpaper_ext};
use crate::state::{AppState, EngineOp, Effects, FollowUp, Page, WallpaperRequest, plain_notice, request_view, scaling_for, status_of_notice};
use crate::text::{owned, str_eq, string_of};
use crate::tray::TrayAction;
use crate::state::library::{only_stops, stop_targets};
use crate::state::updates::{initial_output_spec, initial_selected_output};

verus! {

/// The position of the first library entry at the given path.
pub open spec fn video_index(videos: Seq<VideoItem>, path: Seq<char>) -> Option<int>
    decreases videos.len(),
{
    if videos.len() == 0 {
        None
    } else {
        match video_index(videos.drop_last(), path) {
            Some(i) => Some(i),
            None => if same_path(videos.last().path@, path) { Some(videos.len() - 1) } else { None },
        }
    }
}

/// See `video_index`.
pub fn find_video(videos: &Vec<VideoItem>, path: &str) -> (r: Option<usize>)
    ensures
        r.is_some() == video_index(videos@, path@).is_some(),
        r.is_some() ==> r.unwrap() as int == video_index(videos@, path@).unwrap() && r.unwrap() < videos@.len(),
{
    let mut i: usize = 0;
    while i < videos.len()
        invariant
            i <= videos.len(),
            video_index(videos@.take(i as int), path@) is None,
        decreases videos.len() - i,
    {
        proof {
            assert(videos@.take(i + 1).drop_last() =~= videos@.take(i as int));
        }
        if crate::paths::paths_equal(videos[i].path.as_str(), path) {
            proof {
                lemma_video_index_prefix(videos@, path@, i + 1);
            }
            return Some(i);
        }
        i = i + 1;
    }
    proof {
        assert(videos@.take(videos@.len() as int) =~= videos@);
    }
    None
}

/// Once a prefix holds a match, the whole list has the same first match.
proof fn lemma_video_index_prefix(videos: Seq<VideoItem>, path: Seq<char>, n: int)
    requires
        0 < n <= videos.len(),
        video_index(videos.take(n), path).is_some(),
    ensures
        video_index(videos, path) == video_index(videos.take(n), path),
    decreases videos.len(),
{
    if n < videos.len() {
        assert(videos.drop_last().take(n) =~= videos.take(n));
        lemma_video_index_prefix(videos.drop_last(), path, n);
    } else {
        assert(videos.take(n) =~= videos);
    }
}

/// The title shown for the current wallpaper: the stem of its path, or
/// nothing.
pub open spec fn current_title(current: Option<String>) -> Seq<char> {
    match current {
        Some(c) => match file_stem(c@) { Some(s) => s, None => seq![] },
        None => seq![],
    }
}

fn current_title_exec(current: &Option<String>) -> (r: String)
    ensures
        r@ == current_title(*current),
{
    match current {
        Some(c) => match path_file_stem(c.as_str()) {
            Some(s) => string_of(&s),
            None => String::new(),
        },
        None => String::new(),
    }
}

/// The image that gives the desktop accent after `path` was applied, when
/// that is on: the thumbnail of its library entry, else the file itself when
/// it has a supported extension.
pub open spec fn theme_source_spec(videos: Seq<VideoItem>, auto_theme: bool, path: Seq<char>) -> Option<Seq<char>> {
    if !auto_theme {
        None
    } else {
        match video_index(videos, path) {
            Some(i) if videos[i].thumb_path is Some => Some(videos[i].thumb_path.unwrap()@),
            _ => match extension(path) {
                Some(e) if supported_ext(e) => Some(path),
                _ => None,
            },
        }
    }
}

/// The tray entry of a state change: title, paused, any wallpaper set.
pub open spec fn tray_view(t: Option<(String, bool, bool)>) -> Option<(Seq<char>, bool, bool)> {
    match t {
        Some(x) => Some((x.0@, x.1, x.2)),
        None => None,
    }
}

/// Whether the explore page must load the list of a source: it is empty
/// (only Bing and Wallhaven are listed there).
pub open spec fn need_fetch_spec(s: AppState, source: OnlineSource) -> bool {
    match source {
        OnlineSource::Bing => s.bing_wallpapers@.len() == 0,
        OnlineSource::Wallhaven => s.wallhaven_wallpapers@.len() == 0,
        _ => false,
    }
}

/// What a tray entry asks for.
pub open spec fn tray_follow_up_spec(a: TrayAction) -> FollowUp {
    match a {
        TrayAction::ShowApp => FollowUp::ShowMainWindow,
        TrayAction::TogglePause => FollowUp::TogglePause,
        TrayAction::NextWallpaper => FollowUp::NextWallpaper,
        TrayAction::StopWallpaper => FollowUp::StopWallpaper(None),
        TrayAction::QuitApp => FollowUp::QuitApp,
    }
}

/// See `tray_follow_up_spec`.
pub fn tray_follow_up(a: TrayAction) -> (r: FollowUp)
    ensures
        r == tray_follow_up_spec(a),
{
    match a {
        TrayAction::ShowApp => FollowUp::ShowMainWindow,
        TrayAction::TogglePause => FollowUp::TogglePause,
        TrayAction::NextWallpaper => FollowUp::NextWallpaper,
        TrayAction::StopWallpaper => FollowUp::StopWallpaper(None),
        TrayAction::QuitApp => FollowUp::QuitApp,
    }
}

/// The pause flags of a state: paused, paused for a game, paused on
/// battery.
pub open spec fn pause_flags(s: AppState) -> (bool, bool, bool) {
    (s.is_paused, s.is_paused_by_smart, s.is_paused_by_battery)
}

/// The pause flags after a game started (`true`) or ended: a game pauses
/// running wallpapers and marks the pause as its own; its end resumes only
/// a pause it made.
pub open spec fn game_flags(f: (bool, bool, bool), in_game: bool) -> (bool, bool, bool) {
    if in_game && !f.0 {
        (true, true, f.2)
    } else if !in_game && f.0 && f.1 {
        (false, false, f.2)
    } else {
        f
    }
}

/// The pause flags after the power source changed (`None` when unknown),
/// with pausing on battery `enabled` or not: battery pauses running
/// wallpapers when enabled and marks the pause as its own; mains resumes
/// only a pause it made.
pub open spec fn battery_flags(f: (bool, bool, bool), on_battery: Option<bool>, enabled: bool) -> (bool, bool, bool) {
    if on_battery == Some(true) && !f.0 && enabled {
        (true, f.1, true)
    } else if on_battery == Some(false) && f.0 && f.2 {
        (false, f.1, false)
    } else {
        f
    }
}

/// A game that starts while the wallpaper plays and then ends leaves it
/// playing again, with the game's mark cleared and the battery's kept.
pub proof fn lemma_game_round_trip(f: (bool, bool, bool))
    requires
        !f.0,
    ensures
        game_flags(game_flags(f, true), false) == (false, false, f.2),
{
}

/// The end of a game never resumes a pause that the game did not make (by
/// hand or on battery).
pub proof fn lemma_game_keeps_other_pause(f: (bool, bool, bool))
    requires
        f.0,
        !f.1,
    ensures
        game_flags(f, false) == f,
{
}

/// Going on battery while the wallpaper plays and back to mains leaves it
/// playing again, with the battery's mark cleared and the game's kept.
pub proof fn lemma_battery_round_trip(f: (bool, bool, bool), enabled_later: bool)
    requires
        !f.0,
    ensures
        battery_flags(battery_flags(f, Some(true), true), Some(false), enabled_later) == (false, f.1, false),
{
}

/// Mains power never resumes a pause that the battery did not make (by
/// hand or for a game).
pub proof fn lemma_battery_keeps_other_pause(f: (bool, bool, bool), enabled: bool)
    requires
        f.0,
        !f.2,
    ensures
        battery_flags(f, Some(false), enabled) == f,
{
}

/// An unknown power source changes nothing.
pub proof fn lemma_battery_unknown(f: (bool, bool, bool), enabled: bool)
    ensures
        battery_flags(f, None, enabled) == f,
{
}

/// A second report of the same game state changes nothing more.
pub proof fn lemma_game_idempotent(f: (bool, bool, bool), in_game: bool)
    ensures
        game_flags(game_flags(f, in_game), in_game) == game_flags(f, in_game),
{
}

impl AppState {
    /// Whether the explore page must load the list of a source.
    pub fn need_fetch(&self, source: OnlineSource) -> (b: bool)
        ensures
            b == need_fetch_spec(*self, source),
    {
        match source {
            OnlineSource::Bing => self.bing_wallpapers.len() == 0,
            OnlineSource::Wallhaven => self.wallhaven_wallpapers.len() == 0,
            _ => false,
        }
    }

    /// Shows a page; opening the explore page loads the current source's
    /// list when it is empty and nothing is loading.
    pub fn select_page(&mut self, page: Page) -> (e: Effects)
        ensures
            *final(self) == (AppState { active_page: page, ..*old(self) }),
            (page == Page::Explore && need_fetch_spec(*old(self), old(self).explore_source) && !old(self).explore_loading)
                ==> e.follow_up == Some(FollowUp::FetchOnlineWallpapers(old(self).explore_source)),
            !(page == Page::Explore && need_fetch_spec(*old(self), old(self).explore_source) && !old(self).explore_loading)
                ==> e.follow_up is None,
            !e.save_config && e.autostart is None && e.engine@.len() == 0 && e.wallpapers@.len() == 0 && !e.rescan
                && e.tray is None && e.theme is None && e.notice is None,
    {
        self.active_page = page;
        let mut e = Effects::none();
        if page == Page::Explore && self.need_fetch(self.explore_source) && !self.explore_loading {
            e.follow_up = Some(FollowUp::FetchOnlineWallpapers(self.explore_source));
        }
        e
    }

    /// The request that shows `video_path` on `output` with the output's
    /// scaling and the sound and decoder settings.
    pub fn apply_request(&self, video_path: &str, output: &str) -> (r: WallpaperRequest)
        requires
            self.wf(),
        ensures
            request_view(r) == (output@, video_path@, scaling_for(self.config, output@), self.config.mute, self.config.volume, self.config.hwdec@),
    {
        WallpaperRequest {
            output: owned(output),
            path: owned(video_path),
            scaling: self.config.scaling.get_or(output, "fit"),
            mute: self.config.mute,
            volume: self.config.volume,
            hwdec: self.config.hwdec.clone(),
        }
    }

    /// A wallpaper was applied: the settings record it for the output and
    /// as the current one and are saved, nothing is paused, the tray shows
    /// its file name (`Video` when it has none), the accent may follow it
    /// (see `theme_source_spec`), and the change is shown.
    pub fn apply_succeeded(&mut self, video_path: String, output: String) -> (e: Effects)
        requires
            old(self).wf(),
        ensures
            final(self).wf(),
            final(self).config.wallpapers@ == old(self).config.wallpapers@.insert(output@, video_path@),
            final(self).config == (Config { wallpapers: final(self).config.wallpapers, current: Some(video_path), ..old(self).config }),
            *final(self) == (AppState { config: final(self).config, is_paused: false, status_message: final(self).status_message, ..*old(self) }),
            e.save_config,
            tray_view(e.tray) == Some((match file_name(video_path@) { Some(n) => n, None => "Video"@ }, false, true)),
            (match e.theme { Some(t) => Some(t@), None => None }) == theme_source_spec(old(self).videos@, old(self).config.auto_theme, video_path@),
            plain_notice(e.notice, old(self).language.pick(
                "Fondo aplicado en "@ + output@ + ": '"@ + (match file_name(video_path@) { Some(n) => n, None => "Video"@ }) + "'"@,
                "Wallpaper applied on "@ + output@ + ": '"@ + (match file_name(video_path@) { Some(n) => n, None => "Video"@ }) + "'"@)),
            e.autostart is None && e.engine@.len() == 0 && e.wallpapers@.len() == 0 && !e.rescan && e.follow_up is None,
            status_of_notice(final(self).status_message, e.notice),
    {
        self.config.wallpapers.insert(output.clone(), video_path.clone());
        self.config.current = Some(video_path.clone());
        self.is_paused = false;
        let name = match path_file_name(video_path.as_str()) {
            Some(n) => string_of(&n),
            None => owned("Video"),
        };
        let mut e = Effects::none();
        e.save_config = true;
        e.tray = Some((name.clone(), false, true));
        if self.config.auto_theme {
            match find_video(&self.videos, video_path.as_str()) {
                Some(i) if self.videos[i].thumb_path.is_some() => {
                    e.theme = Some(self.videos[i].thumb_path.clone().unwrap());
                },
                _ => {
                    match path_extension(video_path.as_str()) {
                        Some(ext) => {
                            let ext_s = string_of(&ext);
                            if is_supported_wallpaper_ext(ext_s.as_str()) {
                                e.theme = Some(video_path.clone());
                            }
                        },
                        None => {},
                    }
                },
            }
        }
        let text = self.language.status_applied(output.as_str(), name.as_str());
        e.notice = Some(self.set_status(text));
        e
    }

    /// The pause was toggled and the players report `now_paused`: the tray
    /// and the status line follow.
    pub fn toggle_pause_done(&mut self, now_paused: bool) -> (e: Effects)
        requires
            old(self).wf(),
        ensures
            *final(self) == (AppState { is_paused: now_paused, status_message: final(self).status_message, ..*old(self) }),
            tray_view(e.tray) == Some((current_title(old(self).config.current), now_paused, old(self).config.wallpapers@.dom().len() != 0)),
            plain_notice(e.notice, if now_paused {
                old(self).language.pick("Fondo pausado (0% GPU/CPU)"@, "Wallpaper paused (0% GPU/CPU)"@)
            } else {
                old(self).language.pick("Fondo reanudado"@, "Wallpaper resumed"@)
            }),
            !e.save_config && e.autostart is None && e.engine@.len() == 0 && e.wallpapers@.len() == 0 && !e.rescan
                && e.theme is None && e.follow_up is None,
            status_of_notice(final(self).status_message, e.notice),
    {
        self.is_paused = now_paused;
        let title = current_title_exec(&self.config.current);
        let any = !self.config.wallpapers.is_empty();
        let mut e = Effects::none();
        e.tray = Some((title, now_paused, any));
        let text = if now_paused { owned(self.language.status_paused()) } else { owned(self.language.status_resumed()) };
        e.notice = Some(self.set_status(text));
        e
    }

    /// Stops the wallpaper of an output (or all of them): the settings
    /// forget it (all of them and the current one) and are saved, nothing is
    /// paused, the tray follows, and the stop is shown.
    pub fn stop_wallpaper(&mut self, output: Option<String>) -> (e: Effects)
        requires
            old(self).wf(),
        ensures
            final(self).wf(),
            match output {
                Some(o) => {
                    &&& final(self).config.wallpapers@ == old(self).config.wallpapers@.remove(o@)
                    &&& final(self).config == (Config { wallpapers: final(self).config.wallpapers, ..old(self).config })
                    &&& e.engine@.len() == 1 && e.engine@[0] == EngineOp::StopOutput(o)
                    &&& plain_notice(e.notice, old(self).language.pick("Fondo detenido en "@ + o@, "Wallpaper stopped on "@ + o@))
                },
                None => {
                    &&& final(self).config.wallpapers@ == Map::<Seq<char>, Seq<char>>::empty()
                    &&& final(self).config == (Config { wallpapers: final(self).config.wallpapers, current: None, ..old(self).config })
                    &&& e.engine@.len() == 1 && e.engine@[0] == EngineOp::StopAll
                    &&& plain_notice(e.notice, old(self).language.pick("Todos los fondos han sido detenidos"@, "All wallpapers have been stopped"@))
                },
            },
            *final(self) == (AppState { config: final(self).config, is_paused: false, status_message: final(self).status_message, ..*old(self) }),
            e.save_config,
            tray_view(e.tray) == Some((current_title(final(self).config.current), false, final(self).config.wallpapers@.dom().len() != 0)),
            e.autostart is None && e.wallpapers@.len() == 0 && !e.rescan && e.theme is None && e.follow_up is None,
            status_of_notice(final(self).status_message, e.notice),
    {
        let mut e = Effects::none();
        let text = match output {
            Some(o) => {
                self.config.wallpapers.remove(o.as_str());
                let t = self.language.status_stopped_output(o.as_str());
                e.engine.push(EngineOp::StopOutput(o));
                t
            },
            None => {
                self.config.wallpapers.clear();
                self.config.current = None;
                e.engine.push(EngineOp::StopAll);
                owned(self.language.status_stopped_all())
            },
        };
        self.is_paused = false;
        e.save_config = true;
        let title = current_title_exec(&self.config.current);
        let any = !self.config.wallpapers.is_empty();
        e.tray = Some((title, false, any));
        e.notice = Some(self.set_status(text));
        e
    }

    /// The next wallpaper of the library (in sequential order), applied to
    /// the selected output; the position is saved. Nothing happens with an
    /// empty library.
    pub fn next_wallpaper(&mut self) -> (e: Effects)
        ensures
            old(self).videos@.len() == 0 ==> *final(self) == *old(self) && e.is_none(),
            old(self).videos@.len() > 0 ==> {
                let i = next_index_spec(false, old(self).config.seq_index as int, old(self).videos@.len() as int, 0);
                &&& *final(self) == (AppState { config: (Config { seq_index: i as usize, ..old(self).config }), ..*old(self) })
                &&& e.save_config
                &&& e.follow_up == Some(FollowUp::ApplyWallpaper { video_path: old(self).videos@[i].path, output: old(self).selected_output })
                &&& e.autostart is None && e.engine@.len() == 0 && e.wallpapers@.len() == 0 && !e.rescan
                    && e.tray is None && e.theme is None && e.notice is None
            },
    {
        let mut e = Effects::none();
        if self.videos.len() > 0 {
            let i = next_index(false, self.config.seq_index, self.videos.len(), 0);
            self.config.seq_index = i;
            e.save_config = true;
            e.follow_up = Some(FollowUp::ApplyWallpaper {
                video_path: self.videos[i].path.clone(),
                output: self.selected_output.clone(),
            });
        }
        e
    }

    /// The previous wallpaper of the library, applied to the selected
    /// output; the position is saved. Nothing happens with an empty library.
    pub fn prev_wallpaper(&mut self) -> (e: Effects)
        requires
            old(self).videos@.len() == 0 || old(self).config.seq_index <= old(self).videos@.len(),
        ensures
            old(self).videos@.len() == 0 ==> *final(self) == *old(self) && e.is_none(),
            old(self).videos@.len() > 0 ==> {
                let i = prev_index_spec(old(self).config.seq_index as int, old(self).videos@.len() as int);
                &&& *final(self) == (AppState { config: (Config { seq_index: i as usize, ..old(self).config }), ..*old(self) })
                &&& e.save_config
                &&& e.follow_up == Some(FollowUp::ApplyWallpaper { video_path: old(self).videos@[i].path, output: old(self).selected_output })
                &&& e.autostart is None && e.engine@.len() == 0 && e.wallpapers@.len() == 0 && !e.rescan
                    && e.tray is None && e.theme is None && e.notice is None
            },
    {
        let mut e = Effects::none();
        if self.videos.len() > 0 {
            let i = prev_index(self.config.seq_index, self.videos.len());
            self.config.seq_index = i;
            e.save_config = true;
            e.follow_up = Some(FollowUp::ApplyWallpaper {
                video_path: self.videos[i].path.clone(),
                output: self.selected_output.clone(),
            });
        }
        e
    }

    /// The rotation timer fired: with rotation on and a non-empty library,
    /// the next wallpaper (random, from the clock value, when the order is
    /// `random`) is applied to the selected output and the position saved.
    pub fn rotation_tick(&mut self, clock: usize) -> (e: Effects)
        ensures
            (old(self).videos@.len() == 0 || !old(self).config.rotation) ==> *final(self) == *old(self) && e.is_none(),
            (old(self).videos@.len() > 0 && old(self).config.rotation) ==> {
                let i = next_index_spec(old(self).config.order@ == "random"@, old(self).config.seq_index as int, old(self).videos@.len() as int, clock as int);
                &&& *final(self) == (AppState { config: (Config { seq_index: i as usize, ..old(self).config }), ..*old(self) })
                &&& e.save_config
                &&& e.follow_up == Some(FollowUp::ApplyWallpaper { video_path: old(self).videos@[i].path, output: old(self).selected_output })
                &&& e.autostart is None && e.engine@.len() == 0 && e.wallpapers@.len() == 0 && !e.rescan
                    && e.tray is None && e.theme is None && e.notice is None
            },
    {
        let mut e = Effects::none();
        if self.videos.len() > 0 && self.config.rotation {
            let random = str_eq(self.config.order.as_str(), "random");
            let i = next_index(random, self.config.seq_index, self.videos.len(), clock);
            self.config.seq_index = i;
            e.save_config = true;
            e.follow_up = Some(FollowUp::ApplyWallpaper {
                video_path: self.videos[i].path.clone(),
                output: self.selected_output.clone(),
            });
        }
        e
    }

    /// Whether the game check runs: pausing during games is on and some
    /// wallpaper is set.
    pub fn smart_pause_due(&self) -> (b: bool)
        requires
            self.wf(),
        ensures
            b == (self.config.smart_pause && self.config.wallpapers@.dom().len() != 0),
    {
        self.config.smart_pause && !self.config.wallpapers.is_empty()
    }

    /// Whether the battery check runs: pausing on battery is on and some
    /// wallpaper is set.
    pub fn battery_check_due(&self) -> (b: bool)
        requires
            self.wf(),
        ensures
            b == (self.config.pause_on_battery && self.config.wallpapers@.dom().len() != 0),
    {
        self.config.pause_on_battery && !self.config.wallpapers.is_empty()
    }

    /// A game started or ended: a game pauses running wallpapers (marking
    /// the pause as the game's); its end resumes them only when the game
    /// paused them. The change is shown for five seconds.
    pub fn game_mode_changed(&mut self, in_game: bool) -> (e: Effects)
        ensures
            pause_flags(*final(self)) == game_flags(pause_flags(*old(self)), in_game),
            (in_game && !old(self).is_paused) ==> {
                &&& *final(self) == (AppState { is_paused: true, is_paused_by_smart: true, status_message: final(self).status_message, status_timer: 5, ..*old(self) })
                &&& final(self).status_message matches Some(m) && m@ == old(self).language.pick("Modo Juego: Fondo pausado para máximo rendimiento"@, "Game Mode: Wallpaper paused for maximum performance"@)
                &&& e.engine@.len() == 1 && e.engine@[0] == EngineOp::PauseAll
            },
            (!in_game && old(self).is_paused && old(self).is_paused_by_smart) ==> {
                &&& *final(self) == (AppState { is_paused: false, is_paused_by_smart: false, status_message: final(self).status_message, status_timer: 5, ..*old(self) })
                &&& final(self).status_message matches Some(m) && m@ == old(self).language.pick("Juego minimizado: Fondo reanudado"@, "Game minimized: Wallpaper resumed"@)
                &&& e.engine@.len() == 1 && e.engine@[0] == EngineOp::ResumeAll
            },
            !(in_game && !old(self).is_paused) && !(!in_game && old(self).is_paused && old(self).is_paused_by_smart) ==> {
                &&& *final(self) == *old(self)
                &&& e.engine@.len() == 0
            },
            !e.save_config && e.autostart is None && e.wallpapers@.len() == 0 && !e.rescan && e.tray is None
                && e.theme is None && e.notice is None && e.follow_up is None,
    {
        let mut e = Effects::none();
        if in_game && !self.is_paused {
            e.engine.push(EngineOp::PauseAll);
            self.is_paused = true;
            self.is_paused_by_smart = true;
            self.set_timed_status(owned(self.language.status_game_paused()));
        } else if !in_game && self.is_paused && self.is_paused_by_smart {
            e.engine.push(EngineOp::ResumeAll);
            self.is_paused = false;
            self.is_paused_by_smart = false;
            self.set_timed_status(owned(self.language.status_game_resumed()));
        }
        e
    }

    /// The power source changed (`None` when unknown): running on battery
    /// pauses running wallpapers when that setting is on (marking the pause
    /// as the battery's); back on mains, they resume only when the battery
    /// paused them. The change is shown for five seconds.
    pub fn battery_state_changed(&mut self, on_battery: Option<bool>) -> (e: Effects)
        ensures
            pause_flags(*final(self)) == battery_flags(pause_flags(*old(self)), on_battery, old(self).config.pause_on_battery),
            (on_battery == Some(true) && !old(self).is_paused && old(self).config.pause_on_battery) ==> {
                &&& *final(self) == (AppState { is_paused: true, is_paused_by_battery: true, status_message: final(self).status_message, status_timer: 5, ..*old(self) })
                &&& final(self).status_message matches Some(m) && m@ == old(self).language.pick("Ahorro de batería: Fondo pausado (0% GPU)"@, "Battery saver: Wallpaper paused (0% GPU)"@)
                &&& e.engine@.len() == 1 && e.engine@[0] == EngineOp::PauseAll
            },
            (on_battery == Some(false) && old(self).is_paused && old(self).is_paused_by_battery) ==> {
                &&& *final(self) == (AppState { is_paused: false, is_paused_by_battery: false, status_message: final(self).status_message, status_timer: 5, ..*old(self) })
                &&& final(self).status_message matches Some(m) && m@ == old(self).language.pick("Alimentación por CA conectada: Fondo reanudado"@, "AC power connected: Wallpaper resumed"@)
                &&& e.engine@.len() == 1 && e.engine@[0] == EngineOp::ResumeAll
            },
            !(on_battery == Some(true) && !old(self).is_paused && old(self).config.pause_on_battery)
                && !(on_battery == Some(false) && old(self).is_paused && old(self).is_paused_by_battery) ==> {
                &&& *final(self) == *old(self)
                &&& e.engine@.len() == 0
            },
            !e.save_config && e.autostart is None && e.wallpapers@.len() == 0 && !e.rescan && e.tray is None
                && e.theme is None && e.notice is None && e.follow_up is None,
    {
        let mut e = Effects::none();
        match on_battery {
            Some(b) => {
                if b && !self.is_paused && self.config.pause_on_battery {
                    e.engine.push(EngineOp::PauseAll);
                    self.is_paused = true;
                    self.is_paused_by_battery = true;
                    self.set_timed_status(owned(self.language.status_battery_paused()));
                } else if !b && self.is_paused && self.is_paused_by_battery {
                    e.engine.push(EngineOp::ResumeAll);
                    self.is_paused = false;
                    self.is_paused_by_battery = false;
                    self.set_timed_status(owned(self.language.status_battery_resumed()));
                }
            },
            None => {},
        }
        e
    }

    /// The window was asked to close: with running on after close, the
    /// window is marked closed and `true` is returned; otherwise `false`
    /// (the application stops every wallpaper and quits).
    pub fn window_close_requested(&mut self) -> (keep_running: bool)
        ensures
            keep_running == old(self).config.keep_running_on_close,
            keep_running ==> *final(self) == (AppState { is_window_open: false, ..*old(self) }),
            !keep_running ==> *final(self) == *old(self),
    {
        if self.config.keep_running_on_close {
            self.is_window_open = false;
            true
        } else {
            false
        }
    }

    /// The window was closed.
    pub fn window_closed(&mut self)
        ensures
            *final(self) == (AppState { is_window_open: false, ..*old(self) }),
    {
        self.is_window_open = false;
    }

    /// Showing the window: it is opened anew (returns `true`) when it is
    /// closed or has no main window; otherwise the open one is raised.
    pub fn show_main_window(&mut self, has_main_window: bool) -> (open_new: bool)
        ensures
            open_new == (!old(self).is_window_open || !has_main_window),
            open_new ==> *final(self) == (AppState { is_window_open: true, ..*old(self) }),
            !open_new ==> *final(self) == *old(self),
    {
        if !self.is_window_open || !has_main_window {
            self.is_window_open = true;
            true
        } else {
            false
        }
    }

    /// The outputs were read again. When they differ from the known ones
    /// they replace them and the new count is shown for five seconds; the
    /// selected output, when it is a screen that is gone, goes back to the
    /// first connected one (or all screens); and the players of the screens
    /// with a wallpaper that are gone are stopped (the settings keep them).
    pub fn hotplug(&mut self, current: Vec<MonitorOutput>) -> (r: (bool, Effects))
        requires
            old(self).wf(),
        ensures
            r.0 == (outputs_view(current@) != outputs_view(old(self).outputs@)),
            r.0 ==> *final(self) == (AppState {
                outputs: current,
                selected_output: final(self).selected_output,
                status_message: final(self).status_message,
                status_timer: 5,
                ..*old(self)
            }),
            r.0 ==> final(self).selected_output@ == (if unplugged(current@, old(self).selected_output@) {
                initial_output_spec(""@, current@)
            } else {
                old(self).selected_output@
            }),
            r.0 ==> (final(self).status_message matches Some(m) && m@ == old(self).language.pick(
                "Topología de pantallas actualizada ("@ + crate::text::decimal(current@.len() as nat) + " monitores)"@,
                "Display topology updated ("@ + crate::text::decimal(current@.len() as nat) + " displays)"@)),
            r.0 ==> only_stops(r.1.engine@),
            r.0 ==> forall|i: int| 0 <= i < r.1.engine@.len() ==> old(self).config.wallpapers@.dom().contains(#[trigger] stop_targets(r.1.engine@)[i])
                && unplugged(current@, stop_targets(r.1.engine@)[i]),
            r.0 ==> forall|k: Seq<char>| old(self).config.wallpapers@.dom().contains(k) && #[trigger] unplugged(current@, k)
                ==> stop_targets(r.1.engine@).contains(k),
            !r.0 ==> *final(self) == *old(self) && r.1.engine@.len() == 0,
            !r.1.save_config && r.1.autostart is None && r.1.wallpapers@.len() == 0 && !r.1.rescan && r.1.tray is None
                && r.1.theme is None && r.1.notice is None && r.1.follow_up is None,
    {
        if same_outputs(&current, &self.outputs) {
            return (false, Effects::none());
        }
        let ghost cur = current@;
        let keys = self.config.wallpapers.keys();
        let mut ops: Vec<EngineOp> = Vec::new();
        proof {
            self.config.wallpapers.lemma_view();
        }
        for i in 0..keys.len()
            invariant
                self.wf(),
                keys.len() == self.config.wallpapers.pairs().len(),
                forall|j: int| 0 <= j < keys.len() ==> keys[j]@ == #[trigger] self.config.wallpapers.pairs()[j].0,
                forall|j: int| 0 <= j < self.config.wallpapers.pairs().len() ==> self.config.wallpapers@.dom().contains(#[trigger] self.config.wallpapers.pairs()[j].0),
                current@ == cur,
                only_stops(ops@),
                forall|j: int| 0 <= j < ops@.len() ==> self.config.wallpapers@.dom().contains(#[trigger] stop_targets(ops@)[j])
                    && unplugged(cur, stop_targets(ops@)[j]),
                forall|j: int| 0 <= j < i && #[trigger] unplugged(cur, keys[j]@) ==> stop_targets(ops@).contains(keys[j]@),
        {
            let ghost before = ops@;
            let k = keys[i].as_str();
            if !str_eq(k, "*") && !has_output(&current, k) {
                ops.push(EngineOp::StopOutput(keys[i].clone()));
                proof {
                    assert(stop_targets(ops@) =~= stop_targets(before).push(keys[i as int]@));
                    assert(stop_targets(ops@)[ops@.len() - 1] == keys[i as int]@);
                    assert(keys[i as int]@ == self.config.wallpapers.pairs()[i as int].0);
                    assert(self.config.wallpapers@.dom().contains(keys[i as int]@));
                    assert(unplugged(cur, keys[i as int]@));
                    assert forall|j: int| 0 <= j < ops@.len() implies self.config.wallpapers@.dom().contains(#[trigger] stop_targets(ops@)[j])
                        && unplugged(cur, stop_targets(ops@)[j]) by {
                        if j < before.len() {
                            assert(stop_targets(ops@)[j] == stop_targets(before)[j]);
                        }
                    }
                    assert forall|j: int| 0 <= j < i + 1 && #[trigger] unplugged(cur, keys[j]@) implies stop_targets(ops@).contains(keys[j]@) by {
                        if j < i {
                            let x = choose|x: int| 0 <= x < stop_targets(before).len() && stop_targets(before)[x] == keys[j]@;
                            assert(stop_targets(ops@)[x] == keys[j]@);
                        }
                    }
                }
            } else {
                proof {
                    assert(!unplugged(cur, keys[i as int]@));
                }
            }
        }
        proof {
            self.config.wallpapers.lemma_view();
            assert forall|k: Seq<char>| self.config.wallpapers@.dom().contains(k) && #[trigger] unplugged(cur, k)
                implies stop_targets(ops@).contains(k) by {
                let j = choose|j: int| 0 <= j < self.config.wallpapers.pairs().len() && self.config.wallpapers.pairs()[j].0 == k;
                assert(keys[j]@ == k);
            }
        }
        let gone = !str_eq(self.selected_output.as_str(), "*") && !has_output(&current, self.selected_output.as_str());
        if gone {
            self.selected_output = initial_selected_output("", &current);
        }
        let n = current.len();
        self.outputs = current;
        let text = self.language.status_topology_updated(n);
        self.set_timed_status(text);
        let mut e = Effects::none();
        e.engine = ops;
        (true, e)
    }

    /// The outputs were replaced.
    pub fn outputs_updated(&mut self, outs: Vec<MonitorOutput>)
        ensures
            *final(self) == (AppState { outputs: outs, ..*old(self) }),
    {
        self.outputs = outs;
    }

    /// A thumbnail was made for a file: the first library entry of that
    /// file shows it.
    pub fn thumbnail_generated(&mut self, video_path: &str, thumb_path: String)
        ensures
            match video_index(old(self).videos@, video_path@) {
                Some(i) => {
                    &&& final(self).videos@.len() == old(self).videos@.len()
                    &&& forall|j: int| 0 <= j < final(self).videos@.len() && j != i ==> #[trigger] final(self).videos@[j] == old(self).videos@[j]
                    &&& final(self).videos@[i] == (VideoItem { thumb_path: Some(thumb_path), ..old(self).videos@[i] })
                    &&& *final(self) == (AppState { videos: final(self).videos, ..*old(self) })
                },
                None => *final(self) == *old(self),
            },
    {
        match find_video(&self.videos, video_path) {
            Some(i) => {
                let old_item = &self.videos[i];
                let item = VideoItem {
                    path: old_item.path.clone(),
                    name: old_item.name.clone(),
                    name_lower: old_item.name_lower.clone(),
                    size_formatted: old_item.size_formatted.clone(),
                    thumb_path: Some(thumb_path),
                    is_video: old_item.is_video,
                    is_downloaded: old_item.is_downloaded,
                };
                self.videos.set(i, item);
            },
            None => {},
        }
    }
}


impl AppState {
    /// What the tray shows of this state: the current wallpaper's name,
    /// whether it is paused, and whether any wallpaper is set.
    pub fn tray_status(&self) -> (r: (String, bool, bool))
        requires
            self.wf(),
        ensures
            r.0@ == current_title(self.config.current),
            r.1 == self.is_paused,
            r.2 == (self.config.wallpapers@.dom().len() != 0),
    {
        (current_title_exec(&self.config.current), self.is_paused, !self.config.wallpapers.is_empty())
    }
}


/// Stopping the output that a wallpaper was just applied to (the settings'
/// wallpapers after `apply_succeeded`, then after `stop_wallpaper` of that
/// output) leaves every other output's wallpaper as before the apply; when
/// the output showed none before, the wallpapers are exactly as before.
pub proof fn lemma_stop_undoes_apply(wallpapers: Map<Seq<char>, Seq<char>>, output: Seq<char>, path: Seq<char>)
    ensures
        wallpapers.insert(output, path).remove(output) == wallpapers.remove(output),
        !wallpapers.dom().contains(output) ==> wallpapers.insert(output, path).remove(output) == wallpapers,
{
    assert(wallpapers.insert(output, path).remove(output) =~= wallpapers.remove(output));
    if !wallpapers.dom().contains(output) {
        assert(wallpapers.remove(output) =~= wallpapers);
    }
}

/// A named output that is not among the connected ones (all screens, `*`,
/// is never gone).
pub open spec fn unplugged(outs: Seq<MonitorOutput>, name: Seq<char>) -> bool {
    name != "*"@ && !(exists|i: int| 0 <= i < outs.len() && #[trigger] outs[i].name@ == name)
}

/// Whether an output of the list has the name.
fn has_output(outs: &Vec<MonitorOutput>, name: &str) -> (b: bool)
    ensures
        b == (exists|i: int| 0 <= i < outs@.len() && #[trigger] outs@[i].name@ == name@),
{
    for i in 0..outs.len()
        invariant
            forall|j: int| 0 <= j < i ==> #[trigger] outs@[j].name@ != name@,
    {
        if str_eq(outs[i].name.as_str(), name) {
            return true;
        }
    }
    false
}


} // verus!
