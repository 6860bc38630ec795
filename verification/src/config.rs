//! The persistent settings of the application, their defaults, and the
//! folders that make up the default wallpaper library.
use vstd::prelude::*;
use crate::i18n::{detect_system_language, language_for_locale};
use crate::paths::{join, path_join};
use crate::strlist::{push_absent, push_unique, views, contains_str};
use crate::strmap::StrMap;
use crate::text::{concat2, owned, str_trim, trim};

verus! {

/// The settings of the application.
pub struct Config {
    pub current: Option<String>,
    pub wallpapers: StrMap,
    pub dirs: Vec<String>,
    pub custom_videos: Vec<String>,
    pub output: String,
    pub scaling: StrMap,
    pub auto_theme: bool,
    pub auto_dark: bool,
    pub rotation: bool,
    /// Minutes between two rotations.
    pub interval: u64,
    /// `random` or `sequential`.
    pub order: String,
    pub seq_index: usize,
    pub mute: bool,
    pub volume: u8,
    /// `auto-safe`, `vaapi`, `nvdec` or `no`.
    pub hwdec: String,
    pub smart_pause: bool,
    pub pause_on_battery: bool,
    pub keep_running_on_close: bool,
    pub autostart: bool,
    pub language: String,
}

/// The default values of every setting but the folders and the language.
pub open spec fn has_default_settings(c: Config) -> bool {
    &&& c.current is None
    &&& c.wallpapers@ == Map::<Seq<char>, Seq<char>>::empty()
    &&& c.custom_videos@.len() == 0
    &&& c.output@ == "*"@
    &&& c.scaling@ == Map::<Seq<char>, Seq<char>>::empty()
    &&& c.auto_theme
    &&& c.auto_dark
    &&& !c.rotation
    &&& c.interval == 30
    &&& c.order@ == "random"@
    &&& c.seq_index == 0
    &&& c.mute
    &&& c.volume == 100
    &&& c.hwdec@ == "auto-safe"@
    &&& c.smart_pause
    &&& !c.pause_on_battery
    &&& c.keep_running_on_close
    &&& !c.autostart
}

impl Config {
    /// Both maps are well formed.
    pub open spec fn wf(&self) -> bool {
        self.wallpapers.wf() && self.scaling.wf()
    }

    /// The default settings, with the given library folders and language code.
    pub fn with_environment(dirs: Vec<String>, language: String) -> (c: Config)
        ensures
            c.wf(),
            has_default_settings(c),
            c.dirs@ == dirs@,
            c.language@ == language@,
    {
        Config {
            current: None,
            wallpapers: StrMap::new(),
            dirs,
            custom_videos: Vec::new(),
            output: owned("*"),
            scaling: StrMap::new(),
            auto_theme: true,
            auto_dark: true,
            rotation: false,
            interval: 30,
            order: owned("random"),
            seq_index: 0,
            mute: true,
            volume: 100,
            hwdec: owned("auto-safe"),
            smart_pause: true,
            pause_on_battery: false,
            keep_running_on_close: true,
            autostart: false,
            language,
        }
    }

    /// The folder of the settings file: `$XDG_CONFIG_HOME/aura` when that
    /// variable is set and not empty, else `$HOME/.config/aura` (with `.` for
    /// a missing home).
    pub fn config_dir(xdg_config: Option<&str>, home: Option<&str>) -> (r: String)
        ensures
            r@ == config_dir_spec(opt_view(xdg_config), opt_view(home)),
    {
        match xdg_config {
            Some(x) => {
                if !x.is_empty() {
                    return path_join(x, "aura");
                }
            },
            None => {},
        }
        let h = match home {
            Some(h) => h,
            None => ".",
        };
        let c = path_join(h, ".config");
        path_join(c.as_str(), "aura")
    }

    /// The settings file, `config.json` in `config_dir`.
    pub fn config_file(xdg_config: Option<&str>, home: Option<&str>) -> (r: String)
        ensures
            r@ == join(config_dir_spec(opt_view(xdg_config), opt_view(home)), "config.json"@),
    {
        let d = Config::config_dir(xdg_config, home);
        path_join(d.as_str(), "config.json")
    }

    /// The file the settings are first written to, beside `file`: its name
    /// followed by `.tmp.` and the process id; it then replaces `file`.
    pub fn save_temp_file(file: &str, pid: u32) -> (r: String)
        ensures
            r@ == file@ + ".tmp."@ + crate::text::decimal(pid as nat),
    {
        let mut r = concat2(file, ".tmp.");
        crate::text::push_decimal(&mut r, pid as u64);
        r
    }

    /// Puts the download folder first in the library unless it is listed.
    pub fn ensure_online_dir(&mut self, online_dir: &str)
        ensures
            views(final(self).dirs@) == with_online_dir(views(old(self).dirs@), online_dir@),
            final(self).wallpapers == old(self).wallpapers,
            final(self).scaling == old(self).scaling,
            final(self).custom_videos == old(self).custom_videos,
    {
        if !contains_str(&self.dirs, online_dir) {
            let ghost before = self.dirs@;
            let d = owned(online_dir);
            self.dirs.insert(0, d);
            proof {
                assert(views(self.dirs@) =~= seq![online_dir@] + views(before));
            }
        }
    }

    /// Adds each of the given folders that the library does not list yet, in
    /// order.
    pub fn merge_dirs(&mut self, extra: &Vec<String>)
        ensures
            views(final(self).dirs@) == push_all_absent(views(old(self).dirs@), views(extra@)),
            final(self).wallpapers == old(self).wallpapers,
            final(self).scaling == old(self).scaling,
            final(self).custom_videos == old(self).custom_videos,
    {
        let ghost start = views(self.dirs@);
        for i in 0..extra.len()
            invariant
                views(self.dirs@) == push_all_absent(start, views(extra@).take(i as int)),
                self.wallpapers == old(self).wallpapers,
                self.scaling == old(self).scaling,
                self.custom_videos == old(self).custom_videos,
                start == views(old(self).dirs@),
        {
            proof {
                assert(views(extra@).take(i + 1).drop_last() =~= views(extra@).take(i as int));
                assert(views(extra@)[i as int] == extra@[i as int]@);
            }
            let d = extra[i].clone();
            push_unique(&mut self.dirs, d);
        }
        proof {
            assert(views(extra@).take(extra.len() as int) =~= views(extra@));
        }
    }
}

/// The view of an optional string.
pub open spec fn opt_view(o: Option<&str>) -> Option<Seq<char>> {
    match o {
        Some(s) => Some(s@),
        None => None,
    }
}

/// See `Config::config_dir`.
pub open spec fn config_dir_spec(xdg_config: Option<Seq<char>>, home: Option<Seq<char>>) -> Seq<char> {
    match xdg_config {
        Some(x) if x.len() != 0 => join(x, "aura"@),
        _ => join(join(match home { Some(h) => h, None => "."@ }, ".config"@), "aura"@),
    }
}

/// `push_absent` for each item in turn.
pub open spec fn push_all_absent(s: Seq<Seq<char>>, items: Seq<Seq<char>>) -> Seq<Seq<char>>
    decreases items.len(),
{
    if items.len() == 0 {
        s
    } else {
        push_absent(push_all_absent(s, items.drop_last()), items.last())
    }
}

/// The folder that `xdg-user-dir` printed, when it ran successfully: its
/// output without surrounding white space, unless that is empty.
pub fn xdg_dir_from_output(success: bool, stdout: &str) -> (r: Option<String>)
    ensures
        r.is_some() <==> success && trim(stdout@).len() != 0,
        r.is_some() ==> r.unwrap()@ == trim(stdout@),
{
    if !success {
        return None;
    }
    let t = str_trim(stdout);
    if t.as_str().is_empty() {
        None
    } else {
        Some(t)
    }
}

/// The fixed places where wallpapers are commonly kept, under a home folder.
pub open spec fn library_candidates_spec(home: Seq<char>) -> Seq<Seq<char>> {
    seq![
        home + "/Wallpapers/Aura"@,
        home + "/Wallpapers"@,
        home + "/Fondos"@,
        home + "/Vídeos"@,
        home + "/Videos"@,
        home + "/Imágenes"@,
        home + "/Pictures"@,
        home + "/Descargas"@,
        home + "/Downloads"@,
    ]
}

/// The fixed places where wallpapers are commonly kept, under a home folder.
pub fn library_candidates(home: &str) -> (r: Vec<String>)
    ensures
        views(r@) == library_candidates_spec(home@),
{
    let mut r: Vec<String> = Vec::new();
    r.push(concat2(home, "/Wallpapers/Aura"));
    r.push(concat2(home, "/Wallpapers"));
    r.push(concat2(home, "/Fondos"));
    r.push(concat2(home, "/Vídeos"));
    r.push(concat2(home, "/Videos"));
    r.push(concat2(home, "/Imágenes"));
    r.push(concat2(home, "/Pictures"));
    r.push(concat2(home, "/Descargas"));
    r.push(concat2(home, "/Downloads"));
    proof {
        assert(views(r@) =~= library_candidates_spec(home@));
    }
    r
}

/// What the default library is built from: the home folder (`/tmp` when
/// unknown), the download folder, the folders that `xdg-user-dir` named and
/// that exist, whether `<pictures>/Wallpapers` exists, and which of
/// `library_candidates(home)` exist (a missing entry counts as absent).
pub struct LibraryEnv {
    pub home: String,
    pub online_dir: String,
    pub xdg_videos: Option<String>,
    pub xdg_pictures: Option<String>,
    pub pictures_wallpapers_exists: bool,
    pub xdg_download: Option<String>,
    pub candidate_exists: Vec<bool>,
}

/// The view of an optional string.
pub open spec fn opt_string_view(o: Option<String>) -> Option<Seq<char>> {
    match o {
        Some(s) => Some(s@),
        None => None,
    }
}

/// The candidates among the first `n` that exist, each added unless listed.
pub open spec fn add_existing(dirs: Seq<Seq<char>>, cands: Seq<Seq<char>>, exists: Seq<bool>, n: nat) -> Seq<Seq<char>>
    decreases n,
{
    if n == 0 {
        dirs
    } else {
        let before = add_existing(dirs, cands, exists, (n - 1) as nat);
        if (n - 1) < exists.len() && exists[n - 1] {
            push_absent(before, cands[n - 1])
        } else {
            before
        }
    }
}

/// The default library folders: the download folder first, then the XDG
/// videos, pictures (and its `Wallpapers` subfolder when it exists) and
/// downloads folders, then each existing common place, never one twice; when
/// nothing but the download folder was found, `~/Videos`, `~/Wallpapers` and
/// `~/Downloads` are added so that the user sees where to put files.
pub open spec fn default_dirs_spec(
    home: Seq<char>,
    online: Seq<char>,
    videos: Option<Seq<char>>,
    pictures: Option<Seq<char>>,
    pictures_wallpapers_exists: bool,
    download: Option<Seq<char>>,
    exists: Seq<bool>,
) -> Seq<Seq<char>> {
    let d0 = seq![online];
    let d1 = match videos { Some(v) => push_absent(d0, v), None => d0 };
    let d2 = match pictures {
        Some(p) => {
            let a = push_absent(d1, p);
            if pictures_wallpapers_exists { push_absent(a, join(p, "Wallpapers"@)) } else { a }
        },
        None => d1,
    };
    let d3 = match download { Some(d) => push_absent(d2, d), None => d2 };
    let d4 = add_existing(d3, library_candidates_spec(home), exists, 9);
    if d4.len() <= 1 {
        d4 + seq![home + "/Videos"@, home + "/Wallpapers"@, home + "/Downloads"@]
    } else {
        d4
    }
}

/// See `default_dirs_spec`.
pub fn default_library_dirs(env: &LibraryEnv) -> (r: Vec<String>)
    ensures
        views(r@) == default_dirs_spec(
            env.home@,
            env.online_dir@,
            opt_string_view(env.xdg_videos),
            opt_string_view(env.xdg_pictures),
            env.pictures_wallpapers_exists,
            opt_string_view(env.xdg_download),
            env.candidate_exists@,
        ),
{
    let mut dirs: Vec<String> = Vec::new();
    dirs.push(env.online_dir.clone());
    proof {
        assert(views(dirs@) =~= seq![env.online_dir@]);
    }
    match &env.xdg_videos {
        Some(v) => { push_unique(&mut dirs, v.clone()); },
        None => {},
    }
    match &env.xdg_pictures {
        Some(p) => {
            push_unique(&mut dirs, p.clone());
            if env.pictures_wallpapers_exists {
                let sub = path_join(p.as_str(), "Wallpapers");
                push_unique(&mut dirs, sub);
            }
        },
        None => {},
    }
    match &env.xdg_download {
        Some(d) => { push_unique(&mut dirs, d.clone()); },
        None => {},
    }
    let ghost d3 = views(dirs@);
    let cands = library_candidates(env.home.as_str());
    assert(cands@.len() == views(cands@).len());
    for i in 0..9
        invariant
            cands@.len() == 9,
            views(cands@) == library_candidates_spec(env.home@),
            views(dirs@) == add_existing(d3, library_candidates_spec(env.home@), env.candidate_exists@, i as nat),
    {
        if i < env.candidate_exists.len() && env.candidate_exists[i] {
            proof {
                assert(views(cands@)[i as int] == cands@[i as int]@);
            }
            push_unique(&mut dirs, cands[i].clone());
        }
    }
    if dirs.len() <= 1 {
        let ghost before = dirs@;
        dirs.push(concat2(env.home.as_str(), "/Videos"));
        dirs.push(concat2(env.home.as_str(), "/Wallpapers"));
        dirs.push(concat2(env.home.as_str(), "/Downloads"));
        proof {
            assert(views(dirs@) =~= views(before) + seq![env.home@ + "/Videos"@, env.home@ + "/Wallpapers"@, env.home@ + "/Downloads"@]);
        }
    }
    dirs
}

/// The language code to use when the settings name none, from the locale
/// variables `LANG` and `LC_MESSAGES`.
pub fn default_language(lang: Option<&str>, lc_messages: Option<&str>) -> (r: String)
    ensures
        r@ == language_for_locale(opt_view(lang), opt_view(lc_messages)).code_text(),
{
    owned(detect_system_language(lang, lc_messages).code())
}

/// Where nothing about the environment is known: no home folder, no XDG user
/// folders, nothing on disk. The download folder is then
/// `/tmp/Wallpapers/Aura`.
pub fn unknown_library_env() -> (e: LibraryEnv)
    ensures
        e.home@ == "/tmp"@,
        e.online_dir@ == "/tmp/Wallpapers/Aura"@,
        e.xdg_videos is None,
        e.xdg_pictures is None,
        !e.pictures_wallpapers_exists,
        e.xdg_download is None,
        e.candidate_exists@.len() == 0,
{
    LibraryEnv {
        home: owned("/tmp"),
        online_dir: owned("/tmp/Wallpapers/Aura"),
        xdg_videos: None,
        xdg_pictures: None,
        pictures_wallpapers_exists: false,
        xdg_download: None,
        candidate_exists: Vec::new(),
    }
}

impl Default for Config {
    /// The default settings for an environment of which nothing is known
    /// (see `unknown_library_env`); the language is then English.
    fn default() -> (c: Config)
        ensures
            c.wf(),
            has_default_settings(c),
            views(c.dirs@) == default_dirs_spec("/tmp"@, "/tmp/Wallpapers/Aura"@, None, None, false, None, seq![]),
            c.language@ == "en"@,
    {
        let env = unknown_library_env();
        let dirs = default_library_dirs(&env);
        let language = default_language(None, None);
        proof {
            assert(env.candidate_exists@ =~= Seq::<bool>::empty());
        }
        Config::with_environment(dirs, language)
    }
}


/// The library folders with the download folder put first unless listed.
pub open spec fn with_online_dir(dirs: Seq<Seq<char>>, online_dir: Seq<char>) -> Seq<Seq<char>> {
    if dirs.contains(online_dir) { dirs } else { seq![online_dir] + dirs }
}

/// After the download folder is put first it is listed, and putting it
/// first again changes nothing.
pub proof fn lemma_online_dir_idempotent(dirs: Seq<Seq<char>>, online_dir: Seq<char>)
    ensures
        with_online_dir(dirs, online_dir).contains(online_dir),
        with_online_dir(with_online_dir(dirs, online_dir), online_dir) == with_online_dir(dirs, online_dir),
{
    if !dirs.contains(online_dir) {
        assert((seq![online_dir] + dirs)[0] == online_dir);
    }
}

/// Merging keeps every folder that was listed and lists every folder merged.
proof fn lemma_merge_contains(s: Seq<Seq<char>>, items: Seq<Seq<char>>)
    ensures
        forall|x: Seq<char>| s.contains(x) ==> #[trigger] push_all_absent(s, items).contains(x),
        forall|i: int| 0 <= i < items.len() ==> push_all_absent(s, items).contains(#[trigger] items[i]),
    decreases items.len(),
{
    if items.len() > 0 {
        let init = items.drop_last();
        lemma_merge_contains(s, init);
        let before = push_all_absent(s, init);
        let last = items.last();
        assert forall|x: Seq<char>| before.contains(x) implies push_absent(before, last).contains(x) by {
            if !before.contains(last) {
                let k = choose|k: int| 0 <= k < before.len() && before[k] == x;
                assert(before.push(last)[k] == x);
            }
        }
        assert(push_absent(before, last).contains(last)) by {
            if !before.contains(last) {
                assert(before.push(last)[before.len() as int] == last);
            }
        }
        assert(push_all_absent(s, items) == push_absent(before, last));
        assert forall|x: Seq<char>| s.contains(x) implies #[trigger] push_all_absent(s, items).contains(x) by {
            assert(before.contains(x));
            assert(push_absent(before, last).contains(x));
        }
        assert forall|i: int| 0 <= i < items.len() implies push_all_absent(s, items).contains(#[trigger] items[i]) by {
            if i < items.len() - 1 {
                assert(init[i] == items[i]);
                assert(before.contains(init[i]));
            }
        }
    }
}

/// Merging folders that are all listed changes nothing.
proof fn lemma_merge_listed(s: Seq<Seq<char>>, items: Seq<Seq<char>>)
    requires
        forall|i: int| 0 <= i < items.len() ==> s.contains(#[trigger] items[i]),
    ensures
        push_all_absent(s, items) == s,
    decreases items.len(),
{
    if items.len() > 0 {
        let init = items.drop_last();
        assert forall|i: int| 0 <= i < init.len() implies s.contains(#[trigger] init[i]) by {
            assert(init[i] == items[i]);
        }
        lemma_merge_listed(s, init);
        assert(s.contains(items[items.len() - 1]));
    }
}

/// Merging keeps every listed folder and lists every merged one; merging
/// the same folders again changes nothing.
pub proof fn lemma_merge_idempotent(s: Seq<Seq<char>>, items: Seq<Seq<char>>)
    ensures
        forall|x: Seq<char>| s.contains(x) ==> #[trigger] push_all_absent(s, items).contains(x),
        forall|i: int| 0 <= i < items.len() ==> push_all_absent(s, items).contains(#[trigger] items[i]),
        push_all_absent(push_all_absent(s, items), items) == push_all_absent(s, items),
{
    lemma_merge_contains(s, items);
    lemma_merge_listed(push_all_absent(s, items), items);
}

} // verus!
