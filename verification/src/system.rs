//! Recognising the processes of games, so that wallpapers pause while one
//! runs.
use vstd::prelude::*;
use crate::text::{contains_seq, occurs_at, str_contains};
use crate::unicode::{lowercase, to_lowercase};

verus! {

/// Whether a process command line (compared in lower case) belongs to a
/// game: it runs gamescope, Proton, a Steam app, Heroic's Wine, the Wine
/// preloader or the Lutris wrapper — but never the Proton VPN client.
pub open spec fn heavy_cmdline(cmdline: Seq<char>) -> bool {
    let l = lowercase(cmdline);
    !contains_seq(l, "protonvpn"@) && (
        contains_seq(l, "gamescope"@)
        || contains_seq(l, "proton"@)
        || contains_seq(l, "steam_app"@)
        || contains_seq(l, "heroic --wine"@)
        || contains_seq(l, "wine64-preloader"@)
        || contains_seq(l, "lutris-wrapper"@)
    )
}

/// See `heavy_cmdline`.
pub fn is_heavy_process_cmdline(cmdline: &str) -> (b: bool)
    ensures
        b == heavy_cmdline(cmdline@),
{
    let lower = to_lowercase(cmdline);
    let l = lower.as_str();
    if str_contains(l, "protonvpn") {
        return false;
    }
    if str_contains(l, "gamescope")
        || str_contains(l, "proton")
        || str_contains(l, "steam_app")
        || str_contains(l, "heroic --wine")
        || str_contains(l, "wine64-preloader")
        || str_contains(l, "lutris-wrapper")
    {
        return true;
    }
    false
}

/// Whether a game is running: GameMode reports one, or some process command
/// line (`cmdlines`, read from `/proc`) belongs to a game.
pub fn game_active(gamemode: Option<bool>, cmdlines: &Vec<String>) -> (b: bool)
    ensures
        b == (gamemode == Some(true) || exists|i: int| 0 <= i < cmdlines@.len() && heavy_cmdline(#[trigger] cmdlines@[i]@)),
{
    if gamemode == Some(true) {
        return true;
    }
    let mut i: usize = 0;
    while i < cmdlines.len()
        invariant
            i <= cmdlines.len(),
            forall|j: int| 0 <= j < i ==> !heavy_cmdline(#[trigger] cmdlines@[j]@),
        decreases cmdlines.len() - i,
    {
        if is_heavy_process_cmdline(cmdlines[i].as_str()) {
            return true;
        }
        i = i + 1;
    }
    false
}

/// The lower-case command line `l` mentions a game launcher at position
/// `j`: gamescope, Proton, a Steam app, Heroic's Wine, the Wine preloader or
/// the Lutris wrapper is read from `j` on.
pub open spec fn launcher_at(l: Seq<char>, j: int) -> bool {
    ||| occurs_at(l, "proton"@, j)
    ||| occurs_at(l, "gamescope"@, j)
    ||| occurs_at(l, "steam_app"@, j)
    ||| occurs_at(l, "heroic --wine"@, j)
    ||| occurs_at(l, "wine64-preloader"@, j)
    ||| occurs_at(l, "lutris-wrapper"@, j)
}

/// A command line is a game's exactly when, in lower case, it mentions a
/// game launcher somewhere (at any position, not only at the start) and
/// mentions Proton VPN nowhere.
pub proof fn lemma_game_mentions(cmdline: Seq<char>, i: int)
    ensures
        launcher_at(lowercase(cmdline), i) && !(exists|k: int| occurs_at(lowercase(cmdline), "protonvpn"@, k))
            ==> heavy_cmdline(cmdline),
        (exists|k: int| occurs_at(lowercase(cmdline), "protonvpn"@, k)) ==> !heavy_cmdline(cmdline),
        heavy_cmdline(cmdline) ==> exists|j: int| launcher_at(lowercase(cmdline), j),
{
    let l = lowercase(cmdline);
    if heavy_cmdline(cmdline) {
        if contains_seq(l, "proton"@) {
            let j = choose|j: int| occurs_at(l, "proton"@, j);
            assert(launcher_at(l, j));
        } else if contains_seq(l, "gamescope"@) {
            let j = choose|j: int| occurs_at(l, "gamescope"@, j);
            assert(launcher_at(l, j));
        } else if contains_seq(l, "steam_app"@) {
            let j = choose|j: int| occurs_at(l, "steam_app"@, j);
            assert(launcher_at(l, j));
        } else if contains_seq(l, "heroic --wine"@) {
            let j = choose|j: int| occurs_at(l, "heroic --wine"@, j);
            assert(launcher_at(l, j));
        } else if contains_seq(l, "wine64-preloader"@) {
            let j = choose|j: int| occurs_at(l, "wine64-preloader"@, j);
            assert(launcher_at(l, j));
        } else {
            let j = choose|j: int| occurs_at(l, "lutris-wrapper"@, j);
            assert(launcher_at(l, j));
        }
    }
}

} // verus!
