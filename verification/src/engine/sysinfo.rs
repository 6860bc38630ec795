//! What the engine reads about the system: the distribution (to suggest how
//! to install the player), the state of processes, and whether the player
//! works.
use vstd::prelude::*;
use crate::lines::{lines, str_lines};
use crate::text::{contains, contains_seq, has_prefix, owned, starts_with, slice_chars, string_of, trim, trim_chars, chars_of, str_contains, str_eq, str_trim};
use crate::unicode::{lowercase, to_lowercase};

verus! {

/// The distribution name and install command suggested for the text of
/// `/etc/os-release` (compared in lower case), or the generic Linux
/// suggestion when the file could not be read or names no known family.
pub open spec fn distro_command_spec(os_release: Option<Seq<char>>) -> (Seq<char>, Seq<char>) {
    match os_release {
        Some(content) => {
            let l = lowercase(content);
            if contains_seq(l, "cachyos"@) || contains_seq(l, "arch"@) || contains_seq(l, "manjaro"@) || contains_seq(l, "endeavouros"@) {
                ("Arch / CachyOS"@, "sudo pacman -S --needed mpv ffmpeg"@)
            } else if contains_seq(l, "pop"@) || contains_seq(l, "ubuntu"@) || contains_seq(l, "debian"@) || contains_seq(l, "mint"@) {
                ("Pop!_OS / Ubuntu / Debian"@, "sudo apt install -y libmpv2 ffmpeg"@)
            } else if contains_seq(l, "fedora"@) || contains_seq(l, "nobara"@) {
                ("Fedora"@, "sudo dnf install -y mpv-libs ffmpeg-free"@)
            } else if contains_seq(l, "suse"@) {
                ("openSUSE"@, "sudo zypper install -y mpv ffmpeg"@)
            } else if contains_seq(l, "void"@) {
                ("Void Linux"@, "sudo xbps-install -S mpv ffmpeg"@)
            } else {
                ("Linux"@, "sudo apt install -y libmpv2 ffmpeg || sudo pacman -S --needed mpv ffmpeg"@)
            }
        },
        None => ("Linux"@, "sudo apt install -y libmpv2 ffmpeg || sudo pacman -S --needed mpv ffmpeg"@),
    }
}

/// See `distro_command_spec`.
pub fn detect_distro_command(os_release: Option<&str>) -> (r: (&'static str, &'static str))
    ensures
        (r.0@, r.1@) == distro_command_spec(match os_release { Some(c) => Some(c@), None => None }),
{
    match os_release {
        Some(content) => {
            let lower = to_lowercase(content);
            let l = lower.as_str();
            if str_contains(l, "cachyos") || str_contains(l, "arch") || str_contains(l, "manjaro") || str_contains(l, "endeavouros") {
                ("Arch / CachyOS", "sudo pacman -S --needed mpv ffmpeg")
            } else if str_contains(l, "pop") || str_contains(l, "ubuntu") || str_contains(l, "debian") || str_contains(l, "mint") {
                ("Pop!_OS / Ubuntu / Debian", "sudo apt install -y libmpv2 ffmpeg")
            } else if str_contains(l, "fedora") || str_contains(l, "nobara") {
                ("Fedora", "sudo dnf install -y mpv-libs ffmpeg-free")
            } else if str_contains(l, "suse") {
                ("openSUSE", "sudo zypper install -y mpv ffmpeg")
            } else if str_contains(l, "void") {
                ("Void Linux", "sudo xbps-install -S mpv ffmpeg")
            } else {
                ("Linux", "sudo apt install -y libmpv2 ffmpeg || sudo pacman -S --needed mpv ffmpeg")
            }
        },
        None => ("Linux", "sudo apt install -y libmpv2 ffmpeg || sudo pacman -S --needed mpv ffmpeg"),
    }
}

/// `s` without every leading `c`.
pub open spec fn strip_leading(s: Seq<char>, c: char) -> Seq<char>
    decreases s.len(),
{
    if s.len() > 0 && s[0] == c {
        strip_leading(s.drop_first(), c)
    } else {
        s
    }
}

/// `s` without every trailing `c`.
pub open spec fn strip_trailing(s: Seq<char>, c: char) -> Seq<char>
    decreases s.len(),
{
    if s.len() > 0 && s.last() == c {
        strip_trailing(s.drop_last(), c)
    } else {
        s
    }
}

/// What `str::trim_matches(c)` gives: `s` without every leading and every
/// trailing `c`.
pub open spec fn trim_matches_spec(s: Seq<char>, c: char) -> Seq<char> {
    strip_trailing(strip_leading(s, c), c)
}

/// See `trim_matches_spec`.
pub fn trim_matches(s: &Vec<char>, c: char) -> (r: Vec<char>)
    ensures
        r@ == trim_matches_spec(s@, c),
{
    let mut start: usize = 0;
    proof {
        assert(s@.subrange(0, s@.len() as int) =~= s@);
    }
    while start < s.len() && s[start] == c
        invariant
            start <= s.len(),
            strip_leading(s@, c) == strip_leading(s@.subrange(start as int, s@.len() as int), c),
        decreases s.len() - start,
    {
        proof {
            assert(s@.subrange(start as int, s@.len() as int).drop_first() =~= s@.subrange(start + 1, s@.len() as int));
        }
        start = start + 1;
    }
    let mut end: usize = s.len();
    let ghost lead = s@.subrange(start as int, s@.len() as int);
    proof {
        assert(strip_leading(lead, c) == lead);
    }
    while end > start && s[end - 1] == c
        invariant
            start <= end <= s.len(),
            lead == s@.subrange(start as int, s@.len() as int),
            strip_leading(s@, c) == lead,
            strip_trailing(lead, c) == strip_trailing(s@.subrange(start as int, end as int), c),
        decreases end - start,
    {
        proof {
            assert(s@.subrange(start as int, end as int).drop_last() =~= s@.subrange(start as int, end - 1));
        }
        end = end - 1;
    }
    slice_chars(s, start, end)
}

/// The value of a `KEY=value` line of `/etc/os-release` (after trimming the
/// line): the rest of the line without surrounding double quotes, then single
/// quotes, then white space; `None` for a line with another key.
pub open spec fn os_release_line_value(line: Seq<char>, key: Seq<char>) -> Option<Seq<char>> {
    let t = trim(line);
    if has_prefix(t, key) {
        Some(trim(trim_matches_spec(trim_matches_spec(t.subrange(key.len() as int, t.len() as int), '"'), '\'')))
    } else {
        None
    }
}

/// The first non-empty value of `key` among the lines.
pub open spec fn first_value(ls: Seq<Seq<char>>, key: Seq<char>) -> Option<Seq<char>>
    decreases ls.len(),
{
    if ls.len() == 0 {
        None
    } else {
        match os_release_line_value(ls[0], key) {
            Some(v) if v.len() > 0 => Some(v),
            _ => first_value(ls.drop_first(), key),
        }
    }
}

/// The display name of the system from the text of `/etc/os-release`: the
/// first non-empty `PRETTY_NAME`, else the first non-empty `NAME`, else
/// `Linux` (also when the file could not be read).
pub open spec fn os_pretty_name_spec(os_release: Option<Seq<char>>) -> Seq<char> {
    match os_release {
        Some(c) => match first_value(lines(c), "PRETTY_NAME="@) {
            Some(v) => v,
            None => match first_value(lines(c), "NAME="@) {
                Some(v) => v,
                None => "Linux"@,
            },
        },
        None => "Linux"@,
    }
}

fn line_value(line: &Vec<char>, key: &str) -> (r: Option<Vec<char>>)
    ensures
        match r {
            Some(v) => os_release_line_value(line@, key@) == Some(v@),
            None => os_release_line_value(line@, key@) is None,
        },
{
    let t = trim_chars(line);
    let k = chars_of(key);
    if starts_with(&t, &k) {
        let rest = slice_chars(&t, k.len(), t.len());
        let a = trim_matches(&rest, '"');
        let b = trim_matches(&a, '\'');
        Some(trim_chars(&b))
    } else {
        None
    }
}

fn first_value_exec(ls: &Vec<Vec<char>>, key: &str) -> (r: Option<Vec<char>>)
    ensures
        match r {
            Some(v) => first_value(ls@.map_values(|l: Vec<char>| l@), key@) == Some(v@),
            None => first_value(ls@.map_values(|l: Vec<char>| l@), key@) is None,
        },
{
    let ghost all = ls@.map_values(|l: Vec<char>| l@);
    let mut i: usize = 0;
    proof {
        assert(all.skip(0) =~= all);
    }
    while i < ls.len()
        invariant
            i <= ls.len(),
            all == ls@.map_values(|l: Vec<char>| l@),
            first_value(all, key@) == first_value(all.skip(i as int), key@),
        decreases ls.len() - i,
    {
        proof {
            assert(all.skip(i as int)[0] == ls@[i as int]@);
            assert(all.skip(i as int).drop_first() =~= all.skip(i + 1));
        }
        match line_value(&ls[i], key) {
            Some(v) => {
                if v.len() > 0 {
                    return Some(v);
                }
            },
            None => {},
        }
        i = i + 1;
    }
    None
}

/// See `os_pretty_name_spec`.
pub fn detect_os_pretty_name(os_release: Option<&str>) -> (r: String)
    ensures
        r@ == os_pretty_name_spec(match os_release { Some(c) => Some(c@), None => None }),
{
    match os_release {
        Some(c) => {
            let ls = str_lines(c);
            proof {
                assert(ls@.map_values(|l: Vec<char>| l@) =~= lines(c@));
            }
            match first_value_exec(&ls, "PRETTY_NAME=") {
                Some(v) => string_of(&v),
                None => match first_value_exec(&ls, "NAME=") {
                    Some(v) => string_of(&v),
                    None => owned("Linux"),
                },
            }
        },
        None => owned("Linux"),
    }
}

/// Whether the first `State:` line of `/proc/<pid>/status` shows a stopped
/// process (`T (stopped)`, or a tab then `T`); a status without such a line,
/// or one that could not be read, shows a running one.
pub open spec fn status_stopped_spec(ls: Seq<Seq<char>>) -> bool
    decreases ls.len(),
{
    if ls.len() == 0 {
        false
    } else if has_prefix(ls[0], "State:"@) {
        contains_seq(ls[0], "T (stopped)"@) || contains_seq(ls[0], "\tT"@)
    } else {
        status_stopped_spec(ls.drop_first())
    }
}

/// See `status_stopped_spec`; `status` is the text of the status file.
pub fn is_pid_stopped(status: Option<&str>) -> (b: bool)
    ensures
        b == (match status { Some(s) => status_stopped_spec(lines(s@)), None => false }),
{
    let s = match status {
        Some(s) => s,
        None => { return false; },
    };
    let ls = str_lines(s);
    let ghost all = ls@.map_values(|l: Vec<char>| l@);
    proof {
        assert(all =~= lines(s@));
        assert(all.skip(0) =~= all);
    }
    let state = chars_of("State:");
    let stopped = chars_of("T (stopped)");
    let tab_t = chars_of("\tT");
    let mut i: usize = 0;
    while i < ls.len()
        invariant
            i <= ls.len(),
            all == ls@.map_values(|l: Vec<char>| l@),
            all == lines(s@),
            status == Some(s),
            state@ == "State:"@,
            stopped@ == "T (stopped)"@,
            tab_t@ == "\tT"@,
            status_stopped_spec(all) == status_stopped_spec(all.skip(i as int)),
        decreases ls.len() - i,
    {
        proof {
            assert(all.skip(i as int)[0] == ls@[i as int]@);
            assert(all.skip(i as int).drop_first() =~= all.skip(i + 1));
        }
        if starts_with(&ls[i], &state) {
            return contains(&ls[i], &stopped) || contains(&ls[i], &tab_t);
        }
        i = i + 1;
    }
    false
}

/// Whether a process name read from `/proc/<pid>/comm` is the player's.
pub fn comm_is_mpvpaper(comm: &str) -> (b: bool)
    ensures
        b == (trim(comm@) == "mpvpaper"@),
{
    let t = str_trim(comm);
    str_eq(t.as_str(), "mpvpaper")
}

/// The process id named by an entry of `/proc`: a name made only of ASCII
/// digits that reads as a `u32`.
pub fn pid_of_proc_entry(name: &str) -> (r: Option<u32>)
    ensures
        r == (if crate::text::all_ascii_digits(name@) { crate::text::parse_u32_spec(name@) } else { None }),
{
    let v = chars_of(name);
    let mut i: usize = 0;
    while i < v.len()
        invariant
            i <= v.len(),
            v@ == name@,
            forall|j: int| 0 <= j < i ==> crate::unicode::is_ascii_digit(#[trigger] v@[j]),
        decreases v.len() - i,
    {
        if !crate::unicode::char_is_ascii_digit(v[i]) {
            return None;
        }
        i = i + 1;
    }
    crate::text::parse_u32(&v)
}

/// Whether a `/proc` entry name is a process id for the game check: not
/// empty and made only of ASCII digits.
pub fn is_pid_name(name: &str) -> (b: bool)
    ensures
        b == (name@.len() > 0 && crate::text::all_ascii_digits(name@)),
{
    let v = chars_of(name);
    if v.len() == 0 {
        return false;
    }
    let mut i: usize = 0;
    while i < v.len()
        invariant
            i <= v.len(),
            v@ == name@,
            forall|j: int| 0 <= j < i ==> crate::unicode::is_ascii_digit(#[trigger] v@[j]),
        decreases v.len() - i,
    {
        if !crate::unicode::char_is_ascii_digit(v[i]) {
            return false;
        }
        i = i + 1;
    }
    true
}

/// Whether the player can run, as the probe `mpvpaper -h` found it.
#[derive(Debug, Clone, PartialEq, Eq)]
pub enum EngineHealth {
    Ready,
    MissingBinary,
    MissingLibrary(String),
    ExecutionError(String),
}

/// What running the probe gave: the process finished (with its success,
/// exit code and error output), or it could not be started (whether the
/// program was not found, and the error message).
pub enum HealthProbe {
    Finished { success: bool, code: Option<i32>, stderr: String },
    FailedToStart { not_found: bool, message: String },
}

/// The health that a probe shows: success is ready; exit code 127 or an
/// error output mentioning `libmpv` is a missing library; a program that was
/// not found is a missing binary; anything else is an execution error with
/// its text.
pub open spec fn health_spec(p: HealthProbe) -> EngineHealth {
    match p {
        HealthProbe::Finished { success, code, stderr } => {
            if success {
                EngineHealth::Ready
            } else if code == Some(127i32) || contains_seq(stderr@, "libmpv"@) {
                EngineHealth::MissingLibrary(arbitrary())
            } else {
                EngineHealth::ExecutionError(arbitrary())
            }
        },
        HealthProbe::FailedToStart { not_found, message } => {
            if not_found {
                EngineHealth::MissingBinary
            } else {
                EngineHealth::ExecutionError(arbitrary())
            }
        },
    }
}

/// See `health_spec`; a missing library is named `libmpv`, and an
/// execution error carries the error output or message.
pub fn check_engine_health(probe: HealthProbe) -> (h: EngineHealth)
    ensures
        match (h, health_spec(probe)) {
            (EngineHealth::Ready, EngineHealth::Ready) => true,
            (EngineHealth::MissingBinary, EngineHealth::MissingBinary) => true,
            (EngineHealth::MissingLibrary(l), EngineHealth::MissingLibrary(_)) => l@ == "libmpv"@,
            (EngineHealth::ExecutionError(e), EngineHealth::ExecutionError(_)) => e@ == (match probe {
                HealthProbe::Finished { stderr, .. } => stderr@,
                HealthProbe::FailedToStart { message, .. } => message@,
            }),
            _ => false,
        },
{
    match probe {
        HealthProbe::Finished { success, code, stderr } => {
            if success {
                EngineHealth::Ready
            } else {
                let is_127 = match code {
                    Some(c) => c == 127,
                    None => false,
                };
                if is_127 || str_contains(stderr.as_str(), "libmpv") {
                    EngineHealth::MissingLibrary(owned("libmpv"))
                } else {
                    EngineHealth::ExecutionError(stderr)
                }
            }
        },
        HealthProbe::FailedToStart { not_found, message } => {
            if not_found {
                EngineHealth::MissingBinary
            } else {
                EngineHealth::ExecutionError(message)
            }
        },
    }
}

} // verus!
