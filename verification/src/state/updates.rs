//! Starting the window, outside activation, and the self-update.
use vstd::prelude::*;
use crate::config::Config;
use crate::engine::outputs::MonitorOutput;
use crate::i18n::{APP_VERSION, Language};
use crate::online::models::OnlineSource;
use crate::online::updater::{is_newer_version, newer};
use crate::scanner::VideoItem;
use crate::state::{AppState, AuraFlags, FollowUp, LibraryFilter, Notice, Page, UpdateStatus};
use crate::strmap::StrMap;
use crate::text::{chars_of, concat2, concat3, owned, str_eq, string_of, strip_prefix_all, trim_start_matches};

verus! {

/// The output that new wallpapers go to at start: the saved one when set,
/// else the first detected output, else all outputs (`*`).
pub open spec fn initial_output_spec(saved: Seq<char>, outputs: Seq<MonitorOutput>) -> Seq<char> {
    if saved.len() != 0 {
        saved
    } else if outputs.len() > 0 {
        outputs[0].name@
    } else {
        "*"@
    }
}

/// See `initial_output_spec`.
pub fn initial_selected_output(saved: &str, outputs: &Vec<MonitorOutput>) -> (r: String)
    ensures
        r@ == initial_output_spec(saved@, outputs@),
{
    if !saved.is_empty() {
        owned(saved)
    } else if outputs.len() > 0 {
        outputs[0].name.clone()
    } else {
        owned("*")
    }
}

/// Starting with the session at start: it is on when the settings ask for
/// it or the entry exists; the entry is written when it is on but missing.
pub fn autostart_at_start(setting: bool, entry_exists: bool) -> (r: (bool, bool))
    ensures
        r.0 == (setting || entry_exists),
        r.1 == ((setting || entry_exists) && !entry_exists),
{
    let active = setting || entry_exists;
    (active, active && !entry_exists)
}

/// What a start action asks for once the window state exists.
pub enum StartAction {
    Nothing,
    Follow(FollowUp),
    /// Stop every wallpaper and quit.
    StopAndExit,
}

/// The start action of the flags: `apply` with a file applies it to the
/// selected output, `next` and `prev` move through the library,
/// `toggle-pause` (or `pause`) toggles, `stop` stops everything and quits.
pub open spec fn start_action_spec(action: Option<Seq<char>>, first_arg: Option<Seq<char>>) -> int {
    match action {
        Some(a) => if a == "apply"@ {
            if first_arg is Some { 1 } else { 0 }
        } else if a == "next"@ {
            2
        } else if a == "prev"@ {
            3
        } else if a == "stop"@ {
            4
        } else if a == "toggle-pause"@ || a == "pause"@ {
            5
        } else {
            0
        },
        None => 0,
    }
}

/// See `start_action_spec`.
pub fn start_action(flags: &AuraFlags, selected_output: &str) -> (r: StartAction)
    ensures
        ({
            let k = start_action_spec(
                match flags.action { Some(a) => Some(a@), None => None },
                if flags.args@.len() > 0 { Some(flags.args@[0]@) } else { None });
            &&& k == 0 ==> r is Nothing
            &&& k == 1 ==> (r matches StartAction::Follow(FollowUp::ApplyWallpaper { video_path, output }) && video_path@ == flags.args@[0]@ && output@ == selected_output@)
            &&& k == 2 ==> (r matches StartAction::Follow(FollowUp::NextWallpaper))
            &&& k == 3 ==> (r matches StartAction::Follow(FollowUp::PrevWallpaper))
            &&& k == 4 ==> r is StopAndExit
            &&& k == 5 ==> (r matches StartAction::Follow(FollowUp::TogglePause))
        }),
{
    match &flags.action {
        Some(a) => {
            let a = a.as_str();
            if str_eq(a, "apply") {
                if flags.args.len() > 0 {
                    StartAction::Follow(FollowUp::ApplyWallpaper { video_path: flags.args[0].clone(), output: owned(selected_output) })
                } else {
                    StartAction::Nothing
                }
            } else if str_eq(a, "next") {
                StartAction::Follow(FollowUp::NextWallpaper)
            } else if str_eq(a, "prev") {
                StartAction::Follow(FollowUp::PrevWallpaper)
            } else if str_eq(a, "stop") {
                StartAction::StopAndExit
            } else if str_eq(a, "toggle-pause") || str_eq(a, "pause") {
                StartAction::Follow(FollowUp::TogglePause)
            } else {
                StartAction::Nothing
            }
        },
        None => StartAction::Nothing,
    }
}

/// The text of an optional action.
pub open spec fn action_text(action: Option<&str>) -> Seq<char> {
    match action {
        Some(a) => a@,
        None => seq![],
    }
}

/// What an outside activation asks for: showing the window, or an action
/// as at start (`stop` stops every wallpaper but keeps running), or opening
/// a file (applied to the selected output).
pub fn activation_follow_up(action: Option<&str>, args: &Vec<String>, selected_output: &str) -> (r: Option<FollowUp>)
    ensures
        action is None ==> r == Some(FollowUp::ShowMainWindow),
        action is Some ==> ({
            let a = action_text(action);
            if a == "apply"@ {
                if args@.len() > 0 {
                    r matches Some(FollowUp::ApplyWallpaper { video_path, output }) && video_path@ == args@[0]@ && output@ == selected_output@
                } else {
                    r is None
                }
            } else if a == "next"@ {
                r == Some(FollowUp::NextWallpaper)
            } else if a == "prev"@ {
                r == Some(FollowUp::PrevWallpaper)
            } else if a == "stop"@ {
                r == Some(FollowUp::StopWallpaper(None))
            } else if a == "toggle-pause"@ || a == "pause"@ {
                r == Some(FollowUp::TogglePause)
            } else {
                r is None
            }
        }),
{
    match action {
        None => Some(FollowUp::ShowMainWindow),
        Some(a) => {
            if str_eq(a, "apply") {
                if args.len() > 0 {
                    Some(FollowUp::ApplyWallpaper { video_path: args[0].clone(), output: owned(selected_output) })
                } else {
                    None
                }
            } else if str_eq(a, "next") {
                Some(FollowUp::NextWallpaper)
            } else if str_eq(a, "prev") {
                Some(FollowUp::PrevWallpaper)
            } else if str_eq(a, "stop") {
                Some(FollowUp::StopWallpaper(None))
            } else if str_eq(a, "toggle-pause") || str_eq(a, "pause") {
                Some(FollowUp::TogglePause)
            } else {
                None
            }
        },
    }
}

/// Whether the window checks for updates at start: it is shown, and the
/// application is not managed by Flatpak.
pub fn check_updates_at_start(is_window_open: bool, is_flatpak: bool) -> (b: bool)
    ensures
        b == (is_window_open && !is_flatpak),
{
    is_window_open && !is_flatpak
}

/// The tag of a release without its leading `v`s.
pub open spec fn clean_tag(tag: Seq<char>) -> Seq<char> {
    strip_prefix_all(tag, "v"@)
}

/// Whether a release tag names a newer version than this one.
pub open spec fn update_available(tag: Seq<char>) -> bool {
    newer(clean_tag(tag), APP_VERSION@)
}

impl AppState {
    /// The state of a freshly opened window.
    pub fn new(config: Config, language: Language, outputs: Vec<MonitorOutput>, selected_output: String,
        videos: Vec<VideoItem>, autostart_active: bool, hidden: bool) -> (s: AppState)
        requires
            config.wf(),
        ensures
            s.wf(),
            s.active_page == Page::Library,
            s.config == config && s.language == language && s.outputs == outputs && s.selected_output == selected_output,
            s.videos == videos && s.autostart_active == autostart_active,
            s.search_query@.len() == 0 && s.status_message is None && s.status_timer == 0,
            !s.is_paused && !s.is_paused_by_smart && !s.is_paused_by_battery,
            s.is_window_open == !hidden,
            s.explore_source == OnlineSource::Bing,
            s.bing_wallpapers@.len() == 0 && s.wallhaven_wallpapers@.len() == 0,
            !s.explore_loading && !s.explore_loading_more && s.explore_error is None,
            s.downloading_online_ids@.len() == 0 && s.online_thumbs@ == Map::<Seq<char>, Seq<char>>::empty(),
            s.bing_page == 1 && s.wallhaven_page == 1,
            s.wallhaven_category@ == "110"@ && s.wallhaven_sorting@ == "toplist"@ && s.wallhaven_resolution@ == "all"@,
            s.wallhaven_search@.len() == 0,
            s.library_filter == LibraryFilter::All,
            s.update_status is Idle,
    {
        AppState {
            active_page: Page::Library,
            config,
            language,
            outputs,
            selected_output,
            videos,
            search_query: String::new(),
            autostart_active,
            status_message: None,
            status_timer: 0,
            is_paused: false,
            is_paused_by_smart: false,
            is_paused_by_battery: false,
            is_window_open: !hidden,
            explore_source: OnlineSource::Bing,
            bing_wallpapers: Vec::new(),
            wallhaven_wallpapers: Vec::new(),
            explore_loading: false,
            explore_loading_more: false,
            explore_error: None,
            downloading_online_ids: Vec::new(),
            online_thumbs: StrMap::new(),
            bing_page: 1,
            wallhaven_page: 1,
            wallhaven_category: owned("110"),
            wallhaven_sorting: owned("toplist"),
            wallhaven_resolution: owned("all"),
            wallhaven_search: String::new(),
            library_filter: LibraryFilter::All,
            update_status: UpdateStatus::Idle,
        }
    }

    /// An update check starts.
    pub fn check_for_updates(&mut self)
        ensures
            *final(self) == (AppState { update_status: UpdateStatus::Checking, ..*old(self) }),
    {
        self.update_status = UpdateStatus::Checking;
    }

    /// The answer of an update check (tag, notes, download URL, or an
    /// error): a newer release becomes available and is announced with a
    /// button that updates (or opens the project page when there is nothing
    /// to download); otherwise the version is up to date. A check the user
    /// asked for also announces that, or the error.
    pub fn update_check_result(&mut self, result: Result<(String, String, Option<String>), String>, user_initiated: bool) -> (n: Option<Notice>)
        ensures
            match result {
                Ok((tag, notes, url)) => if update_available(tag@) {
                    &&& *final(self) == (AppState { update_status: UpdateStatus::Available { latest_tag: tag, notes: notes, download_url: url }, ..*old(self) })
                    &&& (n matches Some(x) && x.text@ == "🚀 "@ + old(self).language.pick("Nueva versión disponible:"@, "New version available:"@) + " "@ + tag@)
                    &&& match url {
                        Some(u) => n.unwrap().action matches Some(a) && a.0@ == old(self).language.pick("Actualizar"@, "Update"@)
                            && a.1 == (FollowUp::PerformGuiUpdate { download_url: u, version: tag }),
                        None => n.unwrap().action matches Some(a) && a.0@ == "Github"@ && a.1 == FollowUp::OpenGitHub,
                    }
                } else {
                    &&& *final(self) == (AppState { update_status: UpdateStatus::UpToDate, ..*old(self) })
                    &&& user_initiated ==> (n matches Some(x) && x.text@ == old(self).language.pick("Aura está al día con la última versión."@, "Aura is up to date."@) && x.action is None)
                    &&& !user_initiated ==> n is None
                },
                Err(e) => {
                    &&& *final(self) == (AppState { update_status: UpdateStatus::Error(e), ..*old(self) })
                    &&& user_initiated ==> (n matches Some(x) && x.text@ == "Error: "@ + e@ && x.action is None)
                    &&& !user_initiated ==> n is None
                },
            },
    {
        match result {
            Ok((tag, notes, url)) => {
                let tv = chars_of(tag.as_str());
                let v = chars_of("v");
                proof {
                    reveal_strlit("v");
                }
                let clean = string_of(&trim_start_matches(&tv, &v));
                if is_newer_version(clean.as_str(), APP_VERSION) {
                    let mut text = owned("🚀 ");
                    crate::text::push_str(&mut text, self.language.about_update_available());
                    crate::text::push_str(&mut text, " ");
                    crate::text::push_str(&mut text, tag.as_str());
                    let action = match &url {
                        Some(u) => (owned(self.language.toast_update_available_action()), FollowUp::PerformGuiUpdate { download_url: u.clone(), version: tag.clone() }),
                        None => (owned(self.language.about_github_btn()), FollowUp::OpenGitHub),
                    };
                    self.update_status = UpdateStatus::Available { latest_tag: tag, notes, download_url: url };
                    Some(Notice { text, action: Some(action) })
                } else {
                    self.update_status = UpdateStatus::UpToDate;
                    if user_initiated {
                        Some(Notice { text: owned(self.language.about_up_to_date()), action: None })
                    } else {
                        None
                    }
                }
            },
            Err(e) => {
                let text = concat2("Error: ", e.as_str());
                self.update_status = UpdateStatus::Error(e);
                if user_initiated {
                    Some(Notice { text, action: None })
                } else {
                    None
                }
            },
        }
    }

    /// The update starts downloading, and that is announced.
    pub fn perform_gui_update(&mut self) -> (n: Notice)
        ensures
            *final(self) == (AppState { update_status: UpdateStatus::Downloading, ..*old(self) }),
            n.text@ == old(self).language.pick("Descargando e instalando actualización..."@, "Downloading and installing update..."@),
            n.action is None,
    {
        self.update_status = UpdateStatus::Downloading;
        Notice { text: owned(self.language.about_updating()), action: None }
    }

    /// The update finished: success offers a restart, a failure shows its
    /// error.
    pub fn gui_update_result(&mut self, res: Result<String, String>) -> (n: Notice)
        ensures
            match res {
                Ok(ver) => {
                    &&& *final(self) == (AppState { update_status: UpdateStatus::UpdatedSuccess { new_version: ver }, ..*old(self) })
                    &&& n.text@ == "🎉 ¡Aura actualizada a "@ + ver@ + "!"@
                    &&& (n.action matches Some(a) && a.0@ == old(self).language.pick("Reiniciar"@, "Restart"@) && a.1 == FollowUp::RestartApp)
                },
                Err(e) => {
                    &&& *final(self) == (AppState { update_status: UpdateStatus::Error(e), ..*old(self) })
                    &&& n.text@ == "Error al actualizar: "@ + e@
                    &&& n.action is None
                },
            },
    {
        match res {
            Ok(ver) => {
                let text = concat3("🎉 ¡Aura actualizada a ", ver.as_str(), "!");
                self.update_status = UpdateStatus::UpdatedSuccess { new_version: ver };
                Notice { text, action: Some((owned(self.language.toast_restart_action()), FollowUp::RestartApp)) }
            },
            Err(e) => {
                let text = concat2("Error al actualizar: ", e.as_str());
                self.update_status = UpdateStatus::Error(e);
                Notice { text, action: None }
            },
        }
    }
}

} // verus!
