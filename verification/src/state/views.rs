//! What the window shows, as texts and positions: the now-playing bar, the
//! quick switcher's cards, and the label of a screen card.
use vstd::prelude::*;
use crate::paths::{file_stem, path_file_stem};
use crate::text::{concat2, decimal, owned, push_decimal, push_str, string_of};
use crate::state::AppState;
use crate::online::models::{OnlineSource, OnlineWallpaperItem};
use crate::strlist::{contains_str, views};

verus! {

/// The keys of entries joined by `, `.
pub open spec fn joined_keys(pairs: Seq<(Seq<char>, Seq<char>)>) -> Seq<char>
    decreases pairs.len(),
{
    if pairs.len() == 0 {
        seq![]
    } else if pairs.len() == 1 {
        pairs[0].0
    } else {
        joined_keys(pairs.drop_last()) + ", "@ + pairs.last().0
    }
}

/// The badge of the rotation: ` • ⟳ <minutes>m` while it is on.
pub open spec fn rotation_badge(rotation: bool, interval: u64) -> Seq<char> {
    if rotation { " • ⟳ "@ + decimal(interval as nat) + "m"@ } else { seq![] }
}

/// The two lines of the now-playing bar: the current wallpaper's name and
/// the screens showing wallpapers (with the rotation badge), or the idle
/// texts when nothing is current.
pub open spec fn now_playing_spec(s: AppState) -> (Seq<char>, Seq<char>) {
    match s.config.current {
        Some(c) => (
            match file_stem(c@) { Some(n) => n, None => s.language.pick("Fondo Activo"@, "Active Wallpaper"@) },
            s.language.pick("Pantalla: "@, "Display: "@) + joined_keys(s.config.wallpapers.pairs())
                + rotation_badge(s.config.rotation, s.config.interval),
        ),
        None => (s.language.pick("Ningún fondo en reproducción"@, "No wallpaper playing"@),
            s.language.pick("Escritorio COSMIC estándar"@, "Standard COSMIC desktop"@)),
    }
}

impl AppState {
    /// The two lines of the now-playing bar; see `now_playing_spec`.
    pub fn now_playing(&self) -> (r: (String, String))
        ensures
            (r.0@, r.1@) == now_playing_spec(*self),
    {
        match &self.config.current {
            Some(c) => {
                let title = match path_file_stem(c.as_str()) {
                    Some(n) => string_of(&n),
                    None => owned(self.language.bar_active_title_default()),
                };
                let pairs = self.config.wallpapers.to_pairs();
                let ghost all = self.config.wallpapers.pairs();
                let mut outs = String::new();
                for i in 0..pairs.len()
                    invariant
                        crate::strmap::pair_views(pairs@) == all,
                        outs@ == joined_keys(all.take(i as int)),
                {
                    proof {
                        assert(all.take(i + 1).drop_last() =~= all.take(i as int));
                        assert(all[i as int].0 == pairs@[i as int].0@);
                        if i == 0 {
                            assert(all.take(1)[0] == all[0]);
                        }
                    }
                    if i > 0 {
                        push_str(&mut outs, ", ");
                    }
                    push_str(&mut outs, pairs[i].0.as_str());
                    proof {
                        if i == 0 {
                            assert(outs@ =~= joined_keys(all.take(1)));
                        }
                    }
                }
                proof {
                    assert(all.take(pairs@.len() as int) =~= all);
                }
                let mut label = self.language.bar_display_label(outs.as_str());
                if self.config.rotation {
                    push_str(&mut label, " • ⟳ ");
                    push_decimal(&mut label, self.config.interval);
                    push_str(&mut label, "m");
                }
                proof {
                    assert(label@ =~= now_playing_spec(*self).1);
                }
                (title, label)
            },
            None => (owned(self.language.bar_idle_title()), owned(self.language.bar_idle_desc())),
        }
    }
}

/// The cards of the quick switcher around the current wallpaper, as
/// offsets from it, for a pool of `n` wallpapers: five cards from five on,
/// then four, three, two (the current one and the next) and one.
pub open spec fn switcher_offsets(n: nat) -> Seq<i32> {
    if n >= 5 {
        seq![-2i32, -1i32, 0i32, 1i32, 2i32]
    } else if n == 4 {
        seq![-2i32, -1i32, 0i32, 1i32]
    } else if n == 3 {
        seq![-1i32, 0i32, 1i32]
    } else if n == 2 {
        seq![0i32, 1i32]
    } else {
        seq![0i32]
    }
}

/// See `switcher_offsets`; the card of offset 0 is the centre one.
pub fn switcher_slots(n: usize) -> (r: Vec<i32>)
    ensures
        r@ == switcher_offsets(n as nat),
{
    let mut r: Vec<i32> = Vec::new();
    if n >= 4 {
        r.push(-2);
    }
    if n >= 3 {
        r.push(-1);
    }
    r.push(0);
    if n >= 2 {
        r.push(1);
    }
    if n >= 5 {
        r.push(2);
    }
    proof {
        assert(r@ =~= switcher_offsets(n as nat));
    }
    r
}

/// The wallpaper of the pool shown by the card at `offset`, counting round
/// the pool from the current one (`index` taken modulo the pool's size).
pub fn switcher_item(index: usize, offset: i32, n: usize) -> (r: usize)
    requires
        0 < n <= i32::MAX,
        -2 <= offset <= 2,
    ensures
        r < n,
        r as int == ((index % n) as int + offset as int) % (n as int),
{
    let m = n as u64;
    let cur = (index % n) as u64;
    let base = cur + 2 * m;
    let t = if offset >= 0 { base + offset as u64 } else { base - (-offset) as u64 };
    proof {
        let c = (index % n) as int;
        let o = offset as int;
        vstd::arithmetic::div_mod::lemma_mod_add_multiples_vanish(c + o + m as int, m as int);
        vstd::arithmetic::div_mod::lemma_mod_add_multiples_vanish(c + o, m as int);
        assert(t as int == m as int + (c + o + m as int));
    }
    (t % m) as usize
}

/// The title of a screen card: the screen's name and its resolution.
pub fn screen_card_title(name: &str, resolution: &str) -> (r: String)
    ensures
        r@ == name@ + " • "@ + resolution@,
{
    let mut r = concat2(name, " • ");
    push_str(&mut r, resolution);
    r
}


/// The second line of a catalogue card: the resolution, then the date or,
/// when there is none, the author when there is one, after ` • `.
pub open spec fn card_meta_spec(resolution: Seq<char>, date: Option<Seq<char>>, author: Seq<char>) -> Seq<char> {
    match date {
        Some(d) => resolution + " • "@ + d,
        None => if author.len() > 0 { resolution + " • "@ + author } else { resolution },
    }
}

/// See `card_meta_spec`.
pub fn card_meta_line(item: &OnlineWallpaperItem) -> (r: String)
    ensures
        r@ == card_meta_spec(item.resolution@, match item.date { Some(d) => Some(d@), None => None }, item.author_or_copyright@),
{
    match &item.date {
        Some(d) => {
            let mut r = concat2(item.resolution.as_str(), " • ");
            push_str(&mut r, d.as_str());
            r
        },
        None => {
            if !item.author_or_copyright.as_str().is_empty() {
                let mut r = concat2(item.resolution.as_str(), " • ");
                push_str(&mut r, item.author_or_copyright.as_str());
                r
            } else {
                item.resolution.clone()
            }
        },
    }
}

/// The button of a catalogue card.
pub enum CardButton {
    /// The download is under way (not pressable).
    Downloading,
    /// The downloaded file is shown on some output (not pressable).
    Active,
    /// Apply the downloaded file at the path.
    Apply(String),
    /// Download the item.
    Download,
}

/// Whether the wallpaper load-more button shows, and how.
pub enum LoadMoreButton {
    Hidden,
    /// More items are being loaded (not pressable).
    Loading,
    Ready,
}

impl AppState {
    /// The button of the card of item `id`, given where the item was
    /// downloaded when it was: its download under way, else the file shown
    /// on some output, else applying the file, else downloading.
    pub fn card_button(&self, id: &str, downloaded: Option<String>) -> (r: CardButton)
        requires
            self.wf(),
        ensures
            views(self.downloading_online_ids@).contains(id@) ==> r is Downloading,
            !views(self.downloading_online_ids@).contains(id@) ==> match downloaded {
                Some(p) => if (exists|k: Seq<char>| #[trigger] self.config.wallpapers@.dom().contains(k) && self.config.wallpapers@[k] == p@) {
                    r is Active
                } else {
                    r matches CardButton::Apply(q) && q@ == p@
                },
                None => r is Download,
            },
    {
        if contains_str(&self.downloading_online_ids, id) {
            CardButton::Downloading
        } else {
            match downloaded {
                Some(p) => {
                    if self.config.wallpapers.has_value(p.as_str()) {
                        CardButton::Active
                    } else {
                        CardButton::Apply(p)
                    }
                },
                None => CardButton::Download,
            }
        }
    }

    /// The load-more button under the catalogue: only Bing and Wallhaven
    /// load more, and while a load is under way it says so.
    pub fn load_more_button(&self) -> (r: LoadMoreButton)
        ensures
            r == (if self.explore_source == OnlineSource::Bing || self.explore_source == OnlineSource::Wallhaven {
                if self.explore_loading_more { LoadMoreButton::Loading } else { LoadMoreButton::Ready }
            } else {
                LoadMoreButton::Hidden
            }),
    {
        match self.explore_source {
            OnlineSource::Bing | OnlineSource::Wallhaven => {
                if self.explore_loading_more { LoadMoreButton::Loading } else { LoadMoreButton::Ready }
            },
            _ => LoadMoreButton::Hidden,
        }
    }
}

} // verus!
