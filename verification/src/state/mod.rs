//! What the application window decides: its state, and for each message the
//! next state and the effects that the shell carries out (saving the
//! settings, driving the players, notifications, further messages).
use vstd::prelude::*;
use crate::config::Config;
use crate::engine::outputs::MonitorOutput;
use crate::i18n::Language;
use crate::online::models::{OnlineSource, OnlineWallpaperItem};
use crate::scanner::VideoItem;
use crate::strmap::StrMap;


pub mod settings;
pub mod playback;
pub mod library;
pub mod explore;
pub mod updates;
pub mod views;

verus! {

/// The pages of the window.
#[derive(Debug, Clone, Copy, PartialEq, Eq, Structural)]
pub enum Page {
    Library,
    Explore,
    Monitors,
    Settings,
    About,
}

/// Which wallpapers of the library are listed.
#[derive(Debug, Clone, Copy, PartialEq, Eq, Structural)]
pub enum LibraryFilter {
    All,
    Live,
    Static,
    Downloaded,
}

impl Default for LibraryFilter {
    fn default() -> (f: LibraryFilter)
        ensures
            f == LibraryFilter::All,
    {
        LibraryFilter::All
    }
}

/// Where the self-update stands.
#[derive(Debug, Clone)]
pub enum UpdateStatus {
    Idle,
    Checking,
    UpToDate,
    Available { latest_tag: String, notes: String, download_url: Option<String> },
    Downloading,
    UpdatedSuccess { new_version: String },
    Error(String),
}

/// How the application was started: with a hidden window, and with an
/// action (`apply`, `next`, `prev`, `stop`, `toggle-pause`) and its
/// arguments.
#[derive(Debug, Clone)]
pub struct AuraFlags {
    pub hidden: bool,
    pub action: Option<String>,
    pub args: Vec<String>,
}

impl Default for AuraFlags {
    fn default() -> (f: AuraFlags)
        ensures
            !f.hidden,
            f.action is None,
            f.args@.len() == 0,
    {
        AuraFlags { hidden: false, action: None, args: Vec::new() }
    }
}

impl AuraFlags {
    /// The start action, if any.
    pub fn action(&self) -> (r: Option<&String>)
        ensures
            r == (match self.action { Some(a) => Some(&a), None => None }),
    {
        match &self.action {
            Some(a) => Some(a),
            None => None,
        }
    }

    /// The arguments of the start action.
    pub fn args(&self) -> (r: Vec<&str>)
        ensures
            r@.len() == self.args@.len(),
            forall|i: int| 0 <= i < r@.len() ==> #[trigger] r@[i]@ == self.args@[i]@,
    {
        let mut r: Vec<&str> = Vec::new();
        for i in 0..self.args.len()
            invariant
                r@.len() == i,
                forall|j: int| 0 <= j < i ==> #[trigger] r@[j]@ == self.args@[j]@,
        {
            r.push(self.args[i].as_str());
        }
        r
    }
}

/// A message that the state asks to be handled next.
#[derive(Debug, Clone)]
pub enum FollowUp {
    ShowMainWindow,
    TogglePause,
    NextWallpaper,
    PrevWallpaper,
    StopWallpaper(Option<String>),
    QuitApp,
    ApplyWallpaper { video_path: String, output: String },
    /// Make the thumbnail of a video, then apply it.
    ThumbnailThenApply { video_path: String, output: String },
    FetchOnlineWallpapers(OnlineSource),
    ApplyDownloadedOnlineWallpaper(String),
    DeleteDownloadedWallpaper(String),
    RemoveWallpaperFromLibrary(String),
    PerformGuiUpdate { download_url: String, version: String },
    OpenGitHub,
    RestartApp,
    OpenWallpapersFolder,
}

/// A notification: its text, and the labelled follow-up of its button
/// (notifications with a button stay longer).
pub struct Notice {
    pub text: String,
    pub action: Option<(String, FollowUp)>,
}

/// A request to show a file on an output with the given player settings.
pub struct WallpaperRequest {
    pub output: String,
    pub path: String,
    pub scaling: String,
    pub mute: bool,
    pub volume: u8,
    pub hwdec: String,
}

/// A request to the players.
pub enum EngineOp {
    PauseAll,
    ResumeAll,
    StopAll,
    StopOutput(String),
}

/// What the shell carries out after a message, in this order: save the
/// settings, write or remove the autostart entry, stop or pause players, start the requested wallpapers, rescan
/// the library, update the tray (title, paused, any wallpaper set), take
/// the desktop accent from an image, show the notice, then handle the follow-up message.
pub struct Effects {
    pub save_config: bool,
    /// Write (`true`) or remove (`false`) the autostart entry.
    pub autostart: Option<bool>,
    pub engine: Vec<EngineOp>,
    pub wallpapers: Vec<WallpaperRequest>,
    pub rescan: bool,
    pub tray: Option<(String, bool, bool)>,
    /// The image whose colours become the desktop accent.
    pub theme: Option<String>,
    pub notice: Option<Notice>,
    pub follow_up: Option<FollowUp>,
}

impl Effects {
    /// Nothing to do.
    pub open spec fn is_none(&self) -> bool {
        &&& !self.save_config
        &&& self.autostart is None
        &&& self.engine@.len() == 0
        &&& self.wallpapers@.len() == 0
        &&& !self.rescan
        &&& self.tray is None
        &&& self.theme is None
        &&& self.notice is None
        &&& self.follow_up is None
    }

    pub fn none() -> (e: Effects)
        ensures
            e.is_none(),
    {
        Effects {
            save_config: false,
            autostart: None,
            engine: Vec::new(),
            wallpapers: Vec::new(),
            rescan: false,
            tray: None,
            theme: None,
            notice: None,
            follow_up: None,
        }
    }
}

/// A request as plain values: output, file, scaling, mute, volume, decoder.
pub open spec fn request_view(r: WallpaperRequest) -> (Seq<char>, Seq<char>, Seq<char>, bool, u8, Seq<char>) {
    (r.output@, r.path@, r.scaling@, r.mute, r.volume, r.hwdec@)
}

/// The requests of a list, as plain values.
pub open spec fn requests_view(v: Seq<WallpaperRequest>) -> Seq<(Seq<char>, Seq<char>, Seq<char>, bool, u8, Seq<char>)> {
    v.map_values(|r: WallpaperRequest| request_view(r))
}

/// The scaling mode of an output: the one set for it, else `fit`.
pub open spec fn scaling_for(c: Config, output: Seq<char>) -> Seq<char> {
    if c.scaling@.dom().contains(output) { c.scaling@[output] } else { "fit"@ }
}

/// Every wallpaper of the settings shown again (in entry order) with its
/// scaling, the given mute flag, and the set volume and decoder.
pub open spec fn reapply_spec(c: Config, mute: bool) -> Seq<(Seq<char>, Seq<char>, Seq<char>, bool, u8, Seq<char>)> {
    c.wallpapers.pairs().map_values(|p: (Seq<char>, Seq<char>)| (p.0, p.1, scaling_for(c, p.0), mute, c.volume, c.hwdec@))
}

/// A notice with only a text.
pub open spec fn plain_notice(n: Option<Notice>, text: Seq<char>) -> bool {
    n matches Some(x) && x.text@ == text && x.action is None
}

/// The status line shows the text of the notice.
pub open spec fn status_of_notice(s: Option<String>, n: Option<Notice>) -> bool {
    s matches Some(t) && n matches Some(x) && t@ == x.text@
}

/// The state of the application window.
pub struct AppState {
    pub active_page: Page,
    pub config: Config,
    pub language: Language,
    pub outputs: Vec<MonitorOutput>,
    pub selected_output: String,
    pub videos: Vec<VideoItem>,
    pub search_query: String,
    pub autostart_active: bool,
    pub status_message: Option<String>,
    pub status_timer: u8,
    pub is_paused: bool,
    pub is_paused_by_smart: bool,
    pub is_paused_by_battery: bool,
    pub is_window_open: bool,
    pub explore_source: OnlineSource,
    pub bing_wallpapers: Vec<OnlineWallpaperItem>,
    pub wallhaven_wallpapers: Vec<OnlineWallpaperItem>,
    pub explore_loading: bool,
    pub explore_loading_more: bool,
    pub explore_error: Option<String>,
    pub downloading_online_ids: Vec<String>,
    pub online_thumbs: StrMap,
    pub bing_page: u32,
    pub wallhaven_page: u32,
    pub wallhaven_category: String,
    pub wallhaven_sorting: String,
    pub wallhaven_resolution: String,
    pub wallhaven_search: String,
    pub library_filter: LibraryFilter,
    pub update_status: UpdateStatus,
}

impl AppState {
    /// The maps of the state are well formed.
    pub open spec fn wf(&self) -> bool {
        self.config.wf() && self.online_thumbs.wf()
    }

    /// Shows a status line and a notification with the same text.
    pub fn set_status(&mut self, text: String) -> (n: Notice)
        ensures
            final(self).status_message == Some(text),
            n.text == text,
            n.action is None,
            *final(self) == (AppState { status_message: Some(text), ..*old(self) }),
    {
        self.status_message = Some(text.clone());
        Notice { text, action: None }
    }

    /// Every wallpaper of the settings shown again; see `reapply_spec`.
    pub fn reapply_requests(&self, mute: bool) -> (r: Vec<WallpaperRequest>)
        requires
            self.wf(),
        ensures
            requests_view(r@) == reapply_spec(self.config, mute),
    {
        let pairs = self.config.wallpapers.to_pairs();
        let mut r: Vec<WallpaperRequest> = Vec::new();
        for i in 0..pairs.len()
            invariant
                self.wf(),
                crate::strmap::pair_views(pairs@) == self.config.wallpapers.pairs(),
                requests_view(r@) == reapply_spec(self.config, mute).take(i as int),
        {
            proof {
                assert(crate::strmap::pair_views(pairs@)[i as int] == (pairs@[i as int].0@, pairs@[i as int].1@));
            }
            let out = pairs[i].0.clone();
            let path = pairs[i].1.clone();
            let scaling = self.config.scaling.get_or(out.as_str(), "fit");
            let req = WallpaperRequest {
                output: out,
                path,
                scaling,
                mute,
                volume: self.config.volume,
                hwdec: self.config.hwdec.clone(),
            };
            let ghost before = r@;
            r.push(req);
            proof {
                assert(requests_view(r@) =~= requests_view(before).push(request_view(req)));
                assert(requests_view(r@) =~= reapply_spec(self.config, mute).take(i + 1));
            }
        }
        proof {
            assert(reapply_spec(self.config, mute).take(pairs@.len() as int) =~= reapply_spec(self.config, mute));
        }
        r
    }

    /// Shows a status line for five seconds.
    pub fn set_timed_status(&mut self, text: String)
        ensures
            *final(self) == (AppState { status_message: Some(text), status_timer: 5, ..*old(self) }),
    {
        self.status_message = Some(text);
        self.status_timer = 5;
    }
}


/// The periodic messages the window listens for.
#[derive(Debug, Clone, Copy, PartialEq, Eq, Structural)]
pub enum Tick {
    /// Counts down the status line.
    Second,
    /// Shows the next wallpaper of the rotation.
    Rotation,
    /// Looks for screens plugged in or out.
    Hotplug,
    /// Looks for a game in the foreground.
    SmartPause,
    /// Looks at the power source.
    Battery,
}

/// The timers that run in a state, each with its period in seconds: the
/// status countdown while a status shows, the rotation at the set interval
/// while it is on, the screen check always, and the game and battery checks
/// while they are on and some wallpaper is set.
pub open spec fn timers_spec(status_timer: u8, c: Config) -> Seq<(Tick, u64)> {
    let a = if status_timer > 0 { seq![(Tick::Second, 1u64)] } else { seq![] };
    let b = if c.rotation && c.interval > 0 { a.push((Tick::Rotation, (c.interval * 60) as u64)) } else { a };
    let d = b.push((Tick::Hotplug, 5u64));
    let e = if c.smart_pause && c.wallpapers@.dom().len() > 0 { d.push((Tick::SmartPause, 3u64)) } else { d };
    if c.pause_on_battery && c.wallpapers@.dom().len() > 0 { e.push((Tick::Battery, 4u64)) } else { e }
}

impl AppState {
    /// The timers that run; see `timers_spec`.
    pub fn timers(&self) -> (r: Vec<(Tick, u64)>)
        requires
            self.wf(),
            self.config.rotation && self.config.interval > 0 ==> self.config.interval * 60 <= u64::MAX,
        ensures
            r@ == timers_spec(self.status_timer, self.config),
    {
        let mut r: Vec<(Tick, u64)> = Vec::new();
        if self.status_timer > 0 {
            r.push((Tick::Second, 1));
        }
        if self.config.rotation && self.config.interval > 0 {
            r.push((Tick::Rotation, self.config.interval * 60));
        }
        r.push((Tick::Hotplug, 5));
        proof {
            self.config.wallpapers.lemma_view();
        }
        let has_wallpapers = !self.config.wallpapers.is_empty();
        if self.config.smart_pause && has_wallpapers {
            r.push((Tick::SmartPause, 3));
        }
        if self.config.pause_on_battery && has_wallpapers {
            r.push((Tick::Battery, 4));
        }
        proof {
            assert(r@ =~= timers_spec(self.status_timer, self.config));
        }
        r
    }
}


/// An entry of the navigation bar.
pub struct NavEntry {
    pub label: &'static str,
    /// The name of the entry's icon.
    pub icon: &'static str,
    pub page: Page,
}

/// The entries of the navigation bar, in order: the label, the icon name and
/// the page of each.
pub open spec fn nav_spec(lang: Language) -> Seq<(Seq<char>, Seq<char>, Page)> {
    seq![
        (lang.pick("Biblioteca"@, "Library"@), "video-x-generic-symbolic"@, Page::Library),
        (lang.pick("Explorar"@, "Explore"@), "web-browser-symbolic"@, Page::Explore),
        (lang.pick("Pantallas"@, "Displays"@), "video-display-symbolic"@, Page::Monitors),
        (lang.pick("Ajustes"@, "Settings"@), "preferences-system-symbolic"@, Page::Settings),
        (lang.pick("Acerca de"@, "About"@), "help-about-symbolic"@, Page::About)
    ]
}

/// The contents of the navigation entries.
pub open spec fn nav_view(v: Seq<NavEntry>) -> Seq<(Seq<char>, Seq<char>, Page)> {
    v.map_values(|e: NavEntry| (e.label@, e.icon@, e.page))
}

/// The entries of the navigation bar; see `nav_spec`.
pub fn nav_entries(lang: Language) -> (r: Vec<NavEntry>)
    ensures
        nav_view(r@) == nav_spec(lang),
{
    let mut r: Vec<NavEntry> = Vec::new();
    r.push(NavEntry { label: lang.nav_library(), icon: "video-x-generic-symbolic", page: Page::Library });
    r.push(NavEntry { label: lang.nav_explore(), icon: "web-browser-symbolic", page: Page::Explore });
    r.push(NavEntry { label: lang.nav_monitors(), icon: "video-display-symbolic", page: Page::Monitors });
    r.push(NavEntry { label: lang.nav_settings(), icon: "preferences-system-symbolic", page: Page::Settings });
    r.push(NavEntry { label: lang.nav_about(), icon: "help-about-symbolic", page: Page::About });
    proof {
        assert(nav_view(r@) =~= nav_spec(lang));
    }
    r
}

/// The position of a page's entry in the navigation bar.
pub fn nav_position(page: Page) -> (r: usize)
    ensures
        r < 5,
        nav_spec(Language::Es)[r as int].2 == page,
{
    match page {
        Page::Library => 0,
        Page::Explore => 1,
        Page::Monitors => 2,
        Page::Settings => 3,
        Page::About => 4,
    }
}

} // verus!
