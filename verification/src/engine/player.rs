//! Starting and steering the player: its options and command line, the
//! players this engine runs (one per output), and what pausing and
//! resuming do.
use vstd::prelude::*;
use crate::engine::ipc::IpcValue;
use crate::paths::{join, path_join};
use crate::strlist::{push_unique, remove_all, views, without, push_absent, contains_str};
use crate::strmap::StrMap;
use crate::text::{concat2, contains_seq, decimal, has_prefix, has_suffix, occurs_at, owned, push_decimal, push_str, str_eq};

verus! {

/// `min(v, 100)`: the volume the player is given.
pub open spec fn clamp_volume_spec(v: u8) -> u8 {
    if v < 100 { v } else { 100 }
}

/// The options of the player. An image is shown paused, silent and with
/// high-quality scalers; a video loops with the given hardware decoder, and
/// is silent when muted or at volume 0, else plays at the volume (at most
/// 100). `fill` adds full pan-and-scan, `stretch` drops the aspect ratio,
/// anything else fits.
pub open spec fn mpv_options_spec(scaling: Seq<char>, mute: bool, volume: u8, hwdec: Seq<char>, is_image: bool) -> Seq<char> {
    let base = if is_image {
        "image-display-duration=inf --loop-file=inf --pause=yes --no-config --no-audio --scale=spline36 --cscale=spline36 --dscale=mitchell --demuxer-max-bytes=8M --vd-lavc-threads=1"@
    } else {
        "loop-file=inf --image-display-duration=inf --hwdec="@ + hwdec
            + " --no-config --demuxer-max-bytes=24M --demuxer-readahead-secs=2 --vd-lavc-threads=2 --background-color=#000000"@
            + (if mute || volume == 0 { " --no-audio"@ } else { " --volume="@ + decimal(clamp_volume_spec(volume) as nat) })
    };
    base + (if scaling == "fill"@ {
        " --panscan=1.0"@
    } else if scaling == "stretch"@ {
        " --no-keepaspect"@
    } else {
        seq![]
    })
}

/// The panscan value and the keep-aspect flag of a scaling mode: `fill`
/// is full pan-and-scan keeping the aspect, `stretch` drops the aspect,
/// anything else fits.
pub open spec fn scaling_properties_spec(scaling: Seq<char>) -> (Seq<char>, bool) {
    if scaling == "fill"@ {
        ("1.0"@, true)
    } else if scaling == "stretch"@ {
        ("0.0"@, false)
    } else {
        ("0.0"@, true)
    }
}

/// The property changes that apply a scaling mode to a running player:
/// `panscan`, then `keepaspect`.
pub fn scaling_properties(scaling: &str) -> (r: (IpcValue, IpcValue))
    ensures
        (match r.0 { IpcValue::Decimal(t) => t@ == scaling_properties_spec(scaling@).0, _ => false }),
        r.1 == IpcValue::Flag(scaling_properties_spec(scaling@).1),
{
    if str_eq(scaling, "fill") {
        (IpcValue::Decimal(owned("1.0")), IpcValue::Flag(true))
    } else if str_eq(scaling, "stretch") {
        (IpcValue::Decimal(owned("0.0")), IpcValue::Flag(false))
    } else {
        (IpcValue::Decimal(owned("0.0")), IpcValue::Flag(true))
    }
}

/// See `clamp_volume_spec`.
pub fn clamp_volume(v: u8) -> (r: u8)
    ensures
        r == clamp_volume_spec(v),
{
    if v < 100 { v } else { 100 }
}

/// Whether a player already running on the output can take the new file:
/// the process this engine started is still running and answers on its
/// socket, or (when this engine started none) a player answers there.
pub open spec fn can_reuse_spec(has_child: bool, child_running: bool, ipc_alive: bool) -> bool {
    if has_child { child_running && ipc_alive } else { ipc_alive }
}

/// See `can_reuse_spec`.
pub fn can_reuse(has_child: bool, child_running: bool, ipc_alive: bool) -> (b: bool)
    ensures
        b == can_reuse_spec(has_child, child_running, ipc_alive),
{
    if has_child { child_running && ipc_alive } else { ipc_alive }
}

/// The process id reported after a reused player took the file: the one
/// of the process this engine started, else the one the player reports,
/// else 0.
pub fn reused_pid(child_pid: Option<u32>, ipc_pid: Option<u32>) -> (r: u32)
    ensures
        r == (match child_pid { Some(p) => p, None => match ipc_pid { Some(p) => p, None => 0 } }),
{
    match child_pid {
        Some(p) => p,
        None => match ipc_pid {
            Some(p) => p,
            None => 0,
        },
    }
}

/// The command that starts a player on an output: through
/// `systemd-run --user --scope --quiet` when that is usable, else the player
/// itself; the player runs on the `background` layer, with `-p` when it
/// should pause itself, and takes the options, the output and the file.
pub open spec fn launch_command_spec(use_systemd_run: bool, mpv_bin: Seq<char>, auto_pause: bool, opts: Seq<char>, output: Seq<char>, path: Seq<char>)
    -> (Seq<char>, Seq<Seq<char>>)
{
    let player_args = seq!["-l"@, "background"@] + (if auto_pause { seq!["-p"@] } else { seq![] })
        + seq!["-o"@, opts, output, path];
    if use_systemd_run {
        ("systemd-run"@, seq!["--user"@, "--scope"@, "--quiet"@, mpv_bin] + player_args)
    } else {
        (mpv_bin, player_args)
    }
}

/// See `launch_command_spec`: the program and its arguments.
pub fn launch_command(use_systemd_run: bool, mpv_bin: &str, auto_pause: bool, opts: &str, output: &str, path: &str) -> (r: (String, Vec<String>))
    ensures
        (r.0@, views(r.1@)) == launch_command_spec(use_systemd_run, mpv_bin@, auto_pause, opts@, output@, path@),
{
    let mut args: Vec<String> = Vec::new();
    let program = if use_systemd_run {
        args.push(owned("--user"));
        args.push(owned("--scope"));
        args.push(owned("--quiet"));
        args.push(owned(mpv_bin));
        owned("systemd-run")
    } else {
        owned(mpv_bin)
    };
    let ghost prefix = views(args@);
    args.push(owned("-l"));
    args.push(owned("background"));
    if auto_pause {
        args.push(owned("-p"));
    }
    args.push(owned("-o"));
    args.push(owned(opts));
    args.push(owned(output));
    args.push(owned(path));
    proof {
        let player_args = seq!["-l"@, "background"@] + (if auto_pause { seq!["-p"@] } else { seq![] })
            + seq!["-o"@, opts@, output@, path@];
        assert(views(args@) =~= prefix + player_args);
        if use_systemd_run {
            assert(prefix =~= seq!["--user"@, "--scope"@, "--quiet"@, mpv_bin@]);
        } else {
            assert(prefix =~= Seq::<Seq<char>>::empty());
        }
    }
    (program, args)
}

/// The decimal text of a signed number.
pub open spec fn signed_decimal(i: int) -> Seq<char> {
    if i < 0 { "-"@ + decimal((-i) as nat) } else { decimal(i as nat) }
}

fn push_signed(s: &mut String, i: i32)
    ensures
        final(s)@ == old(s)@ + signed_decimal(i as int),
{
    if i < 0 {
        push_str(s, "-");
        let m: i64 = -(i as i64);
        push_decimal(s, m as u64);
    } else {
        push_decimal(s, i as u64);
    }
}

/// The message when the player could not be started: a missing program
/// names the install command for the distribution, anything else the error,
/// the output and the file.
pub open spec fn spawn_error_spec(not_found: bool, error: Seq<char>, distro: Seq<char>, cmd: Seq<char>, output: Seq<char>, video: Seq<char>) -> Seq<char> {
    if not_found {
        "No se encontró 'mpvpaper'. En "@ + distro + ", instala las dependencias con: "@ + cmd
    } else {
        "Error al iniciar mpvpaper: "@ + error + " (output: "@ + output + ", video: "@ + video + ")"@
    }
}

/// See `spawn_error_spec`.
pub fn spawn_error_message(not_found: bool, error: &str, distro: &str, cmd: &str, output: &str, video: &str) -> (r: String)
    ensures
        r@ == spawn_error_spec(not_found, error@, distro@, cmd@, output@, video@),
{
    if not_found {
        let mut m = owned("No se encontró 'mpvpaper'. En ");
        push_str(&mut m, distro);
        push_str(&mut m, ", instala las dependencias con: ");
        push_str(&mut m, cmd);
        m
    } else {
        let mut m = owned("Error al iniciar mpvpaper: ");
        push_str(&mut m, error);
        push_str(&mut m, " (output: ");
        push_str(&mut m, output);
        push_str(&mut m, ", video: ");
        push_str(&mut m, video);
        push_str(&mut m, ")");
        m
    }
}

/// The message when the player quit right after it started: exit code 127
/// means missing media libraries and names the install command; any other
/// ending shows the code as `Some(n)` or `None`.
pub open spec fn early_exit_spec(code: Option<i32>, distro: Seq<char>, cmd: Seq<char>) -> Seq<char> {
    if code == Some(127i32) {
        "mpvpaper falló al cargar librerías multimedia (código 127). En "@ + distro + ", ejecuta: "@ + cmd
    } else {
        "mpvpaper terminó inmediatamente con código "@
            + (match code { Some(c) => "Some("@ + signed_decimal(c as int) + ")"@, None => "None"@ })
            + ". Verifica el formato y dependencias multimedia."@
    }
}

/// See `early_exit_spec`.
pub fn early_exit_message(code: Option<i32>, distro: &str, cmd: &str) -> (r: String)
    ensures
        r@ == early_exit_spec(code, distro@, cmd@),
{
    let is_127 = match code {
        Some(c) => c == 127,
        None => false,
    };
    if is_127 {
        let mut m = owned("mpvpaper falló al cargar librerías multimedia (código 127). En ");
        push_str(&mut m, distro);
        push_str(&mut m, ", ejecuta: ");
        push_str(&mut m, cmd);
        m
    } else {
        let mut m = owned("mpvpaper terminó inmediatamente con código ");
        match code {
            Some(c) => {
                push_str(&mut m, "Some(");
                push_signed(&mut m, c);
                push_str(&mut m, ")");
            },
            None => {
                push_str(&mut m, "None");
            },
        }
        push_str(&mut m, ". Verifica el formato y dependencias multimedia.");
        m
    }
}

/// A text quoted for a POSIX shell: between single quotes, each single
/// quote written as `'\''`.
pub open spec fn shell_escape_spec(s: Seq<char>) -> Seq<char> {
    "'"@ + crate::text::replace_all(s, "'"@, "'\\''"@) + "'"@
}

/// See `shell_escape_spec`.
pub fn shell_escape(s: &str) -> (r: String)
    ensures
        r@ == shell_escape_spec(s@),
{
    let inner = crate::text::str_replace(s, "'", "'\\''");
    crate::text::concat3("'", inner.as_str(), "'")
}

/// The places where the player program is looked for, in order: beside the
/// running program, in `~/.local/bin`, `/usr/local/bin` and `/usr/bin`.
pub open spec fn mpvpaper_candidates_spec(exe_dir: Option<Seq<char>>, home: Option<Seq<char>>) -> Seq<Seq<char>> {
    (match exe_dir { Some(d) => seq![join(d, "mpvpaper"@)], None => seq![] })
        + (match home { Some(h) => seq![join(h, ".local/bin/mpvpaper"@)], None => seq![] })
        + seq!["/usr/local/bin/mpvpaper"@, "/usr/bin/mpvpaper"@]
}

/// See `mpvpaper_candidates_spec`.
pub fn mpvpaper_candidates(exe_dir: Option<&str>, home: Option<&str>) -> (r: Vec<String>)
    ensures
        views(r@) == mpvpaper_candidates_spec(
            match exe_dir { Some(d) => Some(d@), None => None },
            match home { Some(h) => Some(h@), None => None },
        ),
{
    let mut r: Vec<String> = Vec::new();
    match exe_dir {
        Some(d) => { r.push(path_join(d, "mpvpaper")); },
        None => {},
    }
    match home {
        Some(h) => { r.push(path_join(h, ".local/bin/mpvpaper")); },
        None => {},
    }
    r.push(owned("/usr/local/bin/mpvpaper"));
    r.push(owned("/usr/bin/mpvpaper"));
    proof {
        assert(views(r@) =~= mpvpaper_candidates_spec(
            match exe_dir { Some(d) => Some(d@), None => None },
            match home { Some(h) => Some(h@), None => None },
        ));
    }
    r
}

/// The first candidate from position `i` on that is a file, else
/// `mpvpaper` (found on `PATH`); `is_file[i]` tells whether candidate `i` is
/// a file, and a missing entry counts as no.
pub open spec fn pick_binary_spec(cands: Seq<Seq<char>>, is_file: Seq<bool>, i: int) -> Seq<char>
    decreases cands.len() - i,
{
    if i < 0 || i >= cands.len() {
        "mpvpaper"@
    } else if i < is_file.len() && is_file[i] {
        cands[i]
    } else {
        pick_binary_spec(cands, is_file, i + 1)
    }
}

/// See `pick_binary_spec` (from the first candidate).
pub fn pick_binary(cands: &Vec<String>, is_file: &Vec<bool>) -> (r: String)
    ensures
        r@ == pick_binary_spec(views(cands@), is_file@, 0),
{
    let mut i: usize = 0;
    while i < cands.len()
        invariant
            i <= cands.len(),
            pick_binary_spec(views(cands@), is_file@, 0) == pick_binary_spec(views(cands@), is_file@, i as int),
        decreases cands.len() - i,
    {
        proof {
            assert(views(cands@)[i as int] == cands@[i as int]@);
        }
        if i < is_file.len() && is_file[i] {
            return cands[i].clone();
        }
        i = i + 1;
    }
    owned("mpvpaper")
}

/// Whether `systemd-run` can host the player: never in a Flatpak or Snap
/// sandbox, nor without a session bus or runtime folder in the environment;
/// otherwise when `systemd-run --version` succeeded.
pub fn systemd_run_usable(sandboxed: bool, has_session_env: bool, version_probe_ok: bool) -> (b: bool)
    ensures
        b == (!sandboxed && has_session_env && version_probe_ok),
{
    !sandboxed && has_session_env && version_probe_ok
}

/// The autostart folder: `$HOME/.config/autostart` (with `/tmp` for a
/// missing home).
pub fn autostart_dir(home: Option<&str>) -> (r: String)
    ensures
        r@ == join(join(match home { Some(h) => h@, None => "/tmp"@ }, ".config"@), "autostart"@),
{
    let h = match home {
        Some(h) => h,
        None => "/tmp",
    };
    let c = path_join(h, ".config");
    path_join(c.as_str(), "autostart")
}

/// The autostart entry of the application.
pub fn autostart_file(home: Option<&str>) -> (r: String)
    ensures
        r@ == join(join(join(match home { Some(h) => h@, None => "/tmp"@ }, ".config"@), "autostart"@), "io.github.antwny.aura.desktop"@),
{
    let d = autostart_dir(home);
    path_join(d.as_str(), "io.github.antwny.aura.desktop")
}

/// The command the autostart entry runs, and the program it tests: the
/// Flatpak launcher in a sandbox, else `~/.local/bin/aura` when it exists,
/// else the running program, else `aura`; always started hidden.
pub open spec fn autostart_exec_spec(sandboxed: bool, user_bin: Option<Seq<char>>, current_exe: Option<Seq<char>>) -> (Seq<char>, Seq<char>) {
    if sandboxed {
        ("flatpak run io.github.antwny.aura --hidden"@, "flatpak"@)
    } else {
        match user_bin {
            Some(b) => (b + " --hidden"@, b),
            None => match current_exe {
                Some(e) => (e + " --hidden"@, e),
                None => ("aura --hidden"@, "aura"@),
            },
        }
    }
}

/// See `autostart_exec_spec`; `user_bin` is given only when that file
/// exists.
pub fn autostart_exec(sandboxed: bool, user_bin: Option<&str>, current_exe: Option<&str>) -> (r: (String, String))
    ensures
        (r.0@, r.1@) == autostart_exec_spec(sandboxed,
            match user_bin { Some(b) => Some(b@), None => None },
            match current_exe { Some(e) => Some(e@), None => None }),
{
    if sandboxed {
        (owned("flatpak run io.github.antwny.aura --hidden"), owned("flatpak"))
    } else {
        match user_bin {
            Some(b) => (concat2(b, " --hidden"), owned(b)),
            None => match current_exe {
                Some(e) => (concat2(e, " --hidden"), owned(e)),
                None => (owned("aura --hidden"), owned("aura")),
            },
        }
    }
}

/// The text of the autostart desktop entry.
pub open spec fn desktop_entry_spec(try_exec: Seq<char>, exec: Seq<char>) -> Seq<char> {
    "[Desktop Entry]\nType=Application\nName=Aura\nGenericName=Live Wallpaper Manager\nComment=Animated live wallpaper manager for COSMIC Desktop\nTryExec="@
        + try_exec + "\nExec="@ + exec
        + "\nIcon=io.github.antwny.aura\nTerminal=false\nStartupNotify=false\nX-GNOME-Autostart-enabled=true\nX-Cosmic-Autostart-enabled=true\nX-GNOME-Autostart-Delay=2\nCategories=Utility;DesktopSettings;\n"@
}

/// See `desktop_entry_spec`.
pub fn desktop_entry(try_exec: &str, exec: &str) -> (r: String)
    ensures
        r@ == desktop_entry_spec(try_exec@, exec@),
{
    let mut m = owned("[Desktop Entry]\nType=Application\nName=Aura\nGenericName=Live Wallpaper Manager\nComment=Animated live wallpaper manager for COSMIC Desktop\nTryExec=");
    push_str(&mut m, try_exec);
    push_str(&mut m, "\nExec=");
    push_str(&mut m, exec);
    push_str(&mut m, "\nIcon=io.github.antwny.aura\nTerminal=false\nStartupNotify=false\nX-GNOME-Autostart-enabled=true\nX-Cosmic-Autostart-enabled=true\nX-GNOME-Autostart-Delay=2\nCategories=Utility;DesktopSettings;\n");
    m
}

/// What toggling the pause does: the pause state that the players reported
/// over IPC (the last that answered), or, when none answered, resuming
/// every player if one is stopped and else pausing them all.
pub enum PauseStep {
    ReportedByIpc(bool),
    ResumeAll,
    PauseAll,
}

/// See `PauseStep`; `replies` holds, per socket, the state read back after
/// the toggle (`None` when that socket failed).
pub open spec fn toggle_pause_spec(replies: Seq<Option<bool>>, any_stopped: bool) -> PauseStep
    decreases replies.len(),
{
    if replies.len() == 0 {
        if any_stopped { PauseStep::ResumeAll } else { PauseStep::PauseAll }
    } else {
        match replies.last() {
            Some(b) => PauseStep::ReportedByIpc(b),
            None => toggle_pause_spec(replies.drop_last(), any_stopped),
        }
    }
}

/// See `toggle_pause_spec`.
pub fn toggle_pause_step(replies: &Vec<Option<bool>>, any_stopped: bool) -> (r: PauseStep)
    ensures
        r == toggle_pause_spec(replies@, any_stopped),
{
    let mut i: usize = replies.len();
    proof {
        assert(replies@.take(replies@.len() as int) =~= replies@);
    }
    while i > 0
        invariant
            i <= replies.len(),
            toggle_pause_spec(replies@, any_stopped) == toggle_pause_spec(replies@.take(i as int), any_stopped),
        decreases i,
    {
        proof {
            assert(replies@.take(i as int).drop_last() =~= replies@.take(i - 1));
        }
        match replies[i - 1] {
            Some(b) => { return PauseStep::ReportedByIpc(b); },
            None => {},
        }
        i = i - 1;
    }
    if any_stopped { PauseStep::ResumeAll } else { PauseStep::PauseAll }
}

/// The pause state after a step.
pub open spec fn paused_after(step: PauseStep) -> bool {
    match step {
        PauseStep::ReportedByIpc(b) => b,
        PauseStep::ResumeAll => false,
        PauseStep::PauseAll => true,
    }
}

/// Whether any player is paused: the first socket that answers tells;
/// when none answers, whether a player process is stopped.
pub fn any_paused(first_reply: Option<bool>, any_stopped: bool) -> (b: bool)
    ensures
        b == (match first_reply { Some(p) => p, None => any_stopped }),
{
    match first_reply {
        Some(p) => p,
        None => any_stopped,
    }
}

/// The players this engine runs: the outputs on which it started a player
/// process, and the IPC socket of each output it drives.
pub struct WallpaperEngine {
    processes: Vec<String>,
    sockets: StrMap,
    pub is_paused: bool,
}

impl WallpaperEngine {
    /// The outputs on which this engine started a player, in order.
    pub closed spec fn process_outputs(&self) -> Seq<Seq<char>> {
        views(self.processes@)
    }

    /// Whether the players were last paused.
    pub closed spec fn paused(&self) -> bool {
        self.is_paused
    }

    /// The socket of each driven output.
    pub closed spec fn socket_map(&self) -> Map<Seq<char>, Seq<char>> {
        self.sockets@
    }

    /// No output twice, and a well-formed socket map.
    pub closed spec fn wf(&self) -> bool {
        &&& self.sockets.wf()
        &&& distinct_seq(views(self.processes@))
    }

    pub fn new() -> (e: WallpaperEngine)
        ensures
            e.wf(),
            e.process_outputs().len() == 0,
            e.socket_map() == Map::<Seq<char>, Seq<char>>::empty(),
            !e.paused(),
    {
        let e = WallpaperEngine { processes: Vec::new(), sockets: StrMap::new(), is_paused: false };
        proof {
            assert(views(e.processes@) =~= Seq::<Seq<char>>::empty());
        }
        e
    }

    /// The outputs on which this engine started a player.
    pub fn processes_keys(&self) -> (r: Vec<String>)
        ensures
            views(r@) == self.process_outputs(),
    {
        let mut r: Vec<String> = Vec::new();
        for i in 0..self.processes.len()
            invariant
                views(r@) == views(self.processes@).take(i as int),
        {
            let ghost before = r@;
            let k = self.processes[i].clone();
            r.push(k);
            proof {
                crate::strlist::lemma_views_push(before, k);
                assert(views(r@) =~= views(self.processes@).take(i + 1));
            }
        }
        proof {
            assert(views(self.processes@).take(self.processes@.len() as int) =~= views(self.processes@));
        }
        r
    }

    /// Whether this engine started any player that it still tracks.
    pub fn is_running(&self) -> (b: bool)
        ensures
            b == (self.process_outputs().len() > 0),
    {
        self.processes.len() > 0
    }

    /// Whether this engine started the player of an output.
    pub fn has_process(&self, output: &str) -> (b: bool)
        ensures
            b == self.process_outputs().contains(output@),
    {
        contains_str(&self.processes, output)
    }

    /// The socket this engine drives for an output.
    pub fn socket_of(&self, output: &str) -> (r: Option<String>)
        requires
            self.wf(),
        ensures
            r.is_some() == self.socket_map().dom().contains(output@),
            r.is_some() ==> r.unwrap()@ == self.socket_map()[output@],
    {
        self.sockets.get(output)
    }

    /// The sockets to address for an output, or for every output when none
    /// is named.
    pub fn target_sockets(&self, output: Option<&str>) -> (r: Vec<String>)
        requires
            self.wf(),
        ensures
            output is Some && self.socket_map().dom().contains(output.unwrap()@) ==> views(r@) == seq![self.socket_map()[output.unwrap()@]],
            output is Some && !self.socket_map().dom().contains(output.unwrap()@) ==> r@.len() == 0,
            output is None ==> r@.len() == self.socket_map().dom().len(),
            output is None ==> values_of(self.socket_map(), views(r@)),
    {
        match output {
            Some(o) => {
                let mut r: Vec<String> = Vec::new();
                match self.sockets.get(o) {
                    Some(s) => {
                        r.push(s);
                        proof {
                            assert(self.socket_map().dom().contains(o@));
                            assert(r@[0]@ == self.socket_map()[o@]);
                            assert(views(r@) =~= seq![self.socket_map()[o@]]);
                        }
                    },
                    None => {
                        proof {
                            assert(!self.socket_map().dom().contains(o@));
                        }
                    },
                }
                r
            },
            None => {
                let pairs = self.sockets.to_pairs();
                let mut r: Vec<String> = Vec::new();
                proof {
                    self.sockets.lemma_view();
                }
                for i in 0..pairs.len()
                    invariant
                        self.wf(),
                        crate::strmap::pair_views(pairs@) == self.sockets.pairs(),
                        self.sockets@ == crate::strmap::pairs_map(self.sockets.pairs()),
                        forall|j: int| 0 <= j < self.sockets.pairs().len() ==> #[trigger] self.sockets@[self.sockets.pairs()[j].0] == self.sockets.pairs()[j].1,
                        forall|k: Seq<char>| #[trigger] self.sockets@.dom().contains(k) <==> exists|j: int| 0 <= j < self.sockets.pairs().len() && self.sockets.pairs()[j].0 == k,
                        r@.len() == i,
                        forall|j: int| 0 <= j < i ==> #[trigger] r@[j]@ == self.sockets.pairs()[j].1,
                {
                    proof {
                        assert(crate::strmap::pair_views(pairs@)[i as int] == (pairs@[i as int].0@, pairs@[i as int].1@));
                    }
                    r.push(pairs[i].1.clone());
                }
                proof {
                    self.sockets.lemma_view();
                    assert forall|i: int| 0 <= i < views(r@).len() implies is_value_of(self.socket_map(), #[trigger] views(r@)[i]) by {
                        let k = self.sockets.pairs()[i].0;
                        assert(self.sockets@.dom().contains(k));
                        assert(self.socket_map().dom().contains(k));
                        assert(self.sockets@[k] == self.sockets.pairs()[i].1);
                        assert(r@[i]@ == self.sockets.pairs()[i].1);
                        assert(views(r@)[i] == r@[i]@);
                    }
                }
                r
            },
        }
    }

    /// Records a player started on an output with its socket; the players
    /// then run.
    pub fn record_launch(&mut self, output: &str, sock: String)
        requires
            old(self).wf(),
        ensures
            final(self).wf(),
            final(self).process_outputs() == push_absent(old(self).process_outputs(), output@),
            final(self).socket_map() == old(self).socket_map().insert(output@, sock@),
            !final(self).paused(),
    {
        let ghost before = views(self.processes@);
        push_unique(&mut self.processes, owned(output));
        self.sockets.insert(owned(output), sock);
        self.is_paused = false;
        proof {
            lemma_push_absent_distinct(before, output@);
        }
    }

    /// Records that a running player took a new file through its socket;
    /// the players then run.
    pub fn record_reuse(&mut self, output: &str, sock: String)
        requires
            old(self).wf(),
        ensures
            final(self).wf(),
            final(self).process_outputs() == old(self).process_outputs(),
            final(self).socket_map() == old(self).socket_map().insert(output@, sock@),
            !final(self).paused(),
    {
        self.sockets.insert(owned(output), sock);
        self.is_paused = false;
    }

    /// Forgets the player of an output (it was stopped); returns the socket
    /// it had.
    pub fn forget_output(&mut self, output: &str) -> (r: Option<String>)
        requires
            old(self).wf(),
        ensures
            final(self).wf(),
            final(self).process_outputs() == without(old(self).process_outputs(), output@),
            final(self).socket_map() == old(self).socket_map().remove(output@),
            r.is_some() == old(self).socket_map().dom().contains(output@),
            r.is_some() ==> r.unwrap()@ == old(self).socket_map()[output@],
            final(self).paused() == old(self).paused(),
    {
        let ghost before = views(self.processes@);
        remove_all(&mut self.processes, output);
        proof {
            lemma_without_distinct(before, output@);
        }
        self.sockets.remove(output)
    }

    /// Forgets every player (all were stopped); returns the sockets there
    /// were. Nothing is paused afterwards.
    pub fn forget_all(&mut self) -> (r: Vec<String>)
        requires
            old(self).wf(),
        ensures
            final(self).wf(),
            final(self).process_outputs().len() == 0,
            final(self).socket_map() == Map::<Seq<char>, Seq<char>>::empty(),
            r@.len() == old(self).socket_map().dom().len(),
            values_of(old(self).socket_map(), views(r@)),
            !final(self).paused(),
    {
        let socks = self.target_sockets(None);
        self.processes.clear();
        self.sockets.clear();
        self.is_paused = false;
        proof {
            assert(views(self.processes@) =~= Seq::<Seq<char>>::empty());
        }
        socks
    }

    /// Forgets the players of the given outputs whose processes have ended;
    /// returns the outputs among them that this engine had started, in its
    /// order.
    pub fn reap_dead_processes(&mut self, exited: &Vec<String>) -> (dead: Vec<String>)
        requires
            old(self).wf(),
        ensures
            final(self).wf(),
            forall|k: Seq<char>| #[trigger] final(self).process_outputs().contains(k) <==> (old(self).process_outputs().contains(k) && !views(exited@).contains(k)),
            forall|i: int| 0 <= i < dead@.len() ==> old(self).process_outputs().contains(#[trigger] dead@[i]@) && views(exited@).contains(dead@[i]@),
            forall|k: Seq<char>| old(self).process_outputs().contains(k) && views(exited@).contains(k) ==> #[trigger] views(dead@).contains(k),
            final(self).socket_map().dom() == old(self).socket_map().dom().filter(|k: Seq<char>| !(old(self).process_outputs().contains(k) && views(exited@).contains(k))),
            forall|k: Seq<char>| #[trigger] final(self).socket_map().dom().contains(k) ==> final(self).socket_map()[k] == old(self).socket_map()[k],
            final(self).paused() == old(self).paused(),
    {
        let keys = self.processes_keys();
        let mut dead: Vec<String> = Vec::new();
        let ghost p0 = views(self.processes@);
        let ghost s0 = self.sockets@;
        for i in 0..keys.len()
            invariant
                self.wf(),
                p0 == old(self).process_outputs(),
                s0 == old(self).socket_map(),
                views(keys@) == p0,
                self.paused() == old(self).paused(),
                forall|k: Seq<char>| #[trigger] views(self.processes@).contains(k) <==> (p0.contains(k) && !(views(exited@).contains(k) && views(keys@).take(i as int).contains(k))),
                forall|j: int| 0 <= j < dead@.len() ==> p0.contains(#[trigger] dead@[j]@) && views(exited@).contains(dead@[j]@),
                forall|k: Seq<char>| views(keys@).take(i as int).contains(k) && views(exited@).contains(k) ==> #[trigger] views(dead@).contains(k),
                self.sockets@.dom() == s0.dom().filter(|k: Seq<char>| !(views(keys@).take(i as int).contains(k) && views(exited@).contains(k))),
                forall|k: Seq<char>| #[trigger] self.sockets@.dom().contains(k) ==> self.sockets@[k] == s0[k],
        {
            let ghost before_dead = dead@;
            let ghost ki = keys@[i as int]@;
            proof {
                assert(views(keys@)[i as int] == ki);
                assert(views(keys@).take(i + 1) =~= views(keys@).take(i as int).push(ki));
            }
            if contains_str(exited, keys[i].as_str()) {
                let ghost pb = views(self.processes@);
                let k = keys[i].clone();
                let ghost sb = self.sockets@;
                self.forget_output(k.as_str());
                dead.push(k);
                proof {
                    crate::strlist::lemma_views_push(before_dead, k);
                    lemma_without_distinct(pb, ki);
                    crate::strlist::lemma_without(pb, ki);
                    assert(views(dead@).contains(ki)) by {
                        assert(views(dead@)[dead@.len() - 1] == ki);
                    }
                    assert forall|k2: Seq<char>| views(keys@).take(i + 1).contains(k2) && views(exited@).contains(k2) implies #[trigger] views(dead@).contains(k2) by {
                        if k2 != ki {
                            assert(views(keys@).take(i as int).contains(k2)) by {
                                let j = choose|j: int| 0 <= j < i + 1 && #[trigger] views(keys@).take(i + 1)[j] == k2;
                                assert(views(keys@).take(i as int)[j] == k2);
                            }
                            assert(views(before_dead).contains(k2));
                            let j = choose|j: int| 0 <= j < before_dead.len() && views(before_dead)[j] == k2;
                            assert(views(dead@)[j] == k2);
                        }
                    }
                    assert forall|k2: Seq<char>| #[trigger] views(self.processes@).contains(k2) <==> (p0.contains(k2) && !(views(exited@).contains(k2) && views(keys@).take(i + 1).contains(k2))) by {
                        if views(keys@).take(i + 1).contains(k2) && k2 != ki {
                            let j = choose|j: int| 0 <= j < i + 1 && #[trigger] views(keys@).take(i + 1)[j] == k2;
                            assert(views(keys@).take(i as int)[j] == k2);
                        }
                        if k2 == ki {
                            assert(views(keys@).take(i + 1)[i as int] == ki);
                        }
                    }
                    assert(self.sockets@.dom() =~= s0.dom().filter(|k2: Seq<char>| !(views(keys@).take(i + 1).contains(k2) && views(exited@).contains(k2)))) by {
                        assert forall|k2: Seq<char>| self.sockets@.dom().contains(k2) <==> s0.dom().filter(|k3: Seq<char>| !(views(keys@).take(i + 1).contains(k3) && views(exited@).contains(k3))).contains(k2) by {
                            if views(keys@).take(i + 1).contains(k2) && k2 != ki {
                                let j = choose|j: int| 0 <= j < i + 1 && #[trigger] views(keys@).take(i + 1)[j] == k2;
                                assert(views(keys@).take(i as int)[j] == k2);
                            }
                            if k2 == ki {
                                assert(views(keys@).take(i + 1)[i as int] == ki);
                            }
                        }
                    }
                }
            } else {
                proof {
                    assert forall|k2: Seq<char>| views(keys@).take(i + 1).contains(k2) && views(exited@).contains(k2) implies #[trigger] views(dead@).contains(k2) by {
                        let j = choose|j: int| 0 <= j < i + 1 && #[trigger] views(keys@).take(i + 1)[j] == k2;
                        if j < i {
                            assert(views(keys@).take(i as int)[j] == k2);
                        }
                    }
                    assert forall|k2: Seq<char>| #[trigger] views(self.processes@).contains(k2) <==> (p0.contains(k2) && !(views(exited@).contains(k2) && views(keys@).take(i + 1).contains(k2))) by {
                        if views(keys@).take(i + 1).contains(k2) {
                            let j = choose|j: int| 0 <= j < i + 1 && #[trigger] views(keys@).take(i + 1)[j] == k2;
                            if j < i {
                                assert(views(keys@).take(i as int)[j] == k2);
                            }
                        }
                    }
                    assert(self.sockets@.dom() =~= s0.dom().filter(|k2: Seq<char>| !(views(keys@).take(i + 1).contains(k2) && views(exited@).contains(k2)))) by {
                        assert forall|k2: Seq<char>| self.sockets@.dom().contains(k2) <==> s0.dom().filter(|k3: Seq<char>| !(views(keys@).take(i + 1).contains(k3) && views(exited@).contains(k3))).contains(k2) by {
                            if views(keys@).take(i + 1).contains(k2) {
                                let j = choose|j: int| 0 <= j < i + 1 && #[trigger] views(keys@).take(i + 1)[j] == k2;
                                if j < i {
                                    assert(views(keys@).take(i as int)[j] == k2);
                                }
                            }
                        }
                    }
                }
            }
        }
        proof {
            assert(views(keys@).take(keys@.len() as int) =~= views(keys@));
            assert(self.sockets@.dom() =~= s0.dom().filter(|k: Seq<char>| !(p0.contains(k) && views(exited@).contains(k))));
        }
        dead
    }

    /// Takes the sockets found alive on disk (output, socket) when this
    /// engine drives none yet, so that players started earlier can be
    /// steered.
    pub fn discover_sockets(&mut self, found: &Vec<(String, String)>)
        requires
            old(self).wf(),
        ensures
            final(self).wf(),
            final(self).process_outputs() == old(self).process_outputs(),
            final(self).paused() == old(self).paused(),
            final(self).socket_map() == (if old(self).socket_map().dom().len() == 0 {
                crate::strmap::pairs_map(crate::strmap::pair_views(found@))
            } else {
                old(self).socket_map()
            }),
    {
        if self.sockets.is_empty() {
            self.sockets = StrMap::from_pairs(found);
        }
    }

    /// Records the pause state of the players.
    pub fn set_paused(&mut self, paused: bool)
        ensures
            final(self).paused() == paused,
            final(self).process_outputs() == old(self).process_outputs(),
            final(self).socket_map() == old(self).socket_map(),
            final(self).wf() == old(self).wf(),
    {
        self.is_paused = paused;
    }

    /// See `mpv_options_spec`.
    pub fn build_mpv_options(scaling: &str, mute: bool, volume: u8, hwdec: &str, is_image: bool) -> (r: String)
        ensures
            r@ == mpv_options_spec(scaling@, mute, volume, hwdec@, is_image),
    {
        let mut opts = if is_image {
            owned("image-display-duration=inf --loop-file=inf --pause=yes --no-config --no-audio --scale=spline36 --cscale=spline36 --dscale=mitchell --demuxer-max-bytes=8M --vd-lavc-threads=1")
        } else {
            let mut o = owned("loop-file=inf --image-display-duration=inf --hwdec=");
            push_str(&mut o, hwdec);
            push_str(&mut o, " --no-config --demuxer-max-bytes=24M --demuxer-readahead-secs=2 --vd-lavc-threads=2 --background-color=#000000");
            if mute || volume == 0 {
                push_str(&mut o, " --no-audio");
            } else {
                push_str(&mut o, " --volume=");
                push_decimal(&mut o, clamp_volume(volume) as u64);
            }
            o
        };
        let ghost base = opts@;
        if str_eq(scaling, "fill") {
            push_str(&mut opts, " --panscan=1.0");
        } else if str_eq(scaling, "stretch") {
            push_str(&mut opts, " --no-keepaspect");
        } else {
            proof {
                assert(opts@ =~= base + Seq::<char>::empty());
            }
        }
        opts
    }
}

/// The player options: `stretch` always ends them with `--no-keepaspect`
/// and `fill` with `--panscan=1.0`, for images as for videos; an image is
/// shown paused and silent; a video loops with the given decoder, and plays
/// silent when muted or at volume 0, else at the volume capped at 100.
pub proof fn lemma_mpv_options(scaling: Seq<char>, mute: bool, volume: u8, hwdec: Seq<char>, is_image: bool)
    ensures
        scaling == "stretch"@ ==> has_suffix(mpv_options_spec(scaling, mute, volume, hwdec, is_image), " --no-keepaspect"@),
        scaling == "fill"@ ==> has_suffix(mpv_options_spec(scaling, mute, volume, hwdec, is_image), " --panscan=1.0"@),
        is_image ==> has_prefix(mpv_options_spec(scaling, mute, volume, hwdec, is_image),
            "image-display-duration=inf --loop-file=inf --pause=yes --no-config --no-audio"@),
        !is_image ==> has_prefix(mpv_options_spec(scaling, mute, volume, hwdec, is_image),
            "loop-file=inf --image-display-duration=inf --hwdec="@ + hwdec),
        !is_image && (mute || volume == 0) ==> contains_seq(mpv_options_spec(scaling, mute, volume, hwdec, is_image), " --no-audio"@),
        !is_image && !mute && volume > 0 ==> contains_seq(mpv_options_spec(scaling, mute, volume, hwdec, is_image),
            " --volume="@ + decimal((if volume < 100 { volume } else { 100u8 }) as nat)),
{
    let o = mpv_options_spec(scaling, mute, volume, hwdec, is_image);
    let img = "image-display-duration=inf --loop-file=inf --pause=yes --no-config --no-audio --scale=spline36 --cscale=spline36 --dscale=mitchell --demuxer-max-bytes=8M --vd-lavc-threads=1"@;
    let head = "loop-file=inf --image-display-duration=inf --hwdec="@ + hwdec;
    let mid = " --no-config --demuxer-max-bytes=24M --demuxer-readahead-secs=2 --vd-lavc-threads=2 --background-color=#000000"@;
    let audio = if mute || volume == 0 { " --no-audio"@ } else { " --volume="@ + decimal(clamp_volume_spec(volume) as nat) };
    let base = if is_image { img } else { head + mid + audio };
    let tail = if scaling == "fill"@ { " --panscan=1.0"@ } else if scaling == "stretch"@ { " --no-keepaspect"@ } else { seq![] };
    reveal_strlit("fill");
    reveal_strlit("stretch");
    assert("fill"@ != "stretch"@) by {
        assert("fill"@.len() != "stretch"@.len());
    }
    assert(o == base + tail);
    assert(o.subrange(o.len() - tail.len(), o.len() as int) =~= tail);
    if is_image {
        reveal_strlit("image-display-duration=inf --loop-file=inf --pause=yes --no-config --no-audio --scale=spline36 --cscale=spline36 --dscale=mitchell --demuxer-max-bytes=8M --vd-lavc-threads=1");
        reveal_strlit("image-display-duration=inf --loop-file=inf --pause=yes --no-config --no-audio");
        let p = "image-display-duration=inf --loop-file=inf --pause=yes --no-config --no-audio"@;
        assert(o.subrange(0, p.len() as int) =~= p);
    } else {
        assert(o.subrange(0, head.len() as int) =~= head);
        let at: int = (head.len() + mid.len()) as int;
        assert(o.subrange(at, at + audio.len()) =~= audio);
        assert(occurs_at(o, audio, at));
    }
}

/// What a wallpaper launch needs to know, gathered before it starts: the
/// output, the file as chosen (`path`) and the file the player loads
/// (`file`, a prepared copy for large images), the playback settings, the
/// socket of the output, the player program, whether `systemd-run` is
/// usable, and the distribution with its install command.
pub struct LaunchRequest {
    pub output: String,
    pub path: String,
    pub file: String,
    pub scaling: String,
    pub mute: bool,
    pub volume: u8,
    pub hwdec: String,
    pub auto_pause: bool,
    pub sock: String,
    pub mpv_bin: String,
    pub use_scope: bool,
    pub distro: String,
    pub install: String,
}

/// What happened since the last step of a launch.
pub enum LaunchEvent {
    /// The launch is asked for.
    Start,
    /// The earlier players were stopped; the state of the output's player:
    /// whether this engine started a process there, whether it still runs,
    /// and whether a player answers on the socket.
    Begin { has_child: bool, child_running: bool, ipc_alive: bool },
    /// The running player was given the settings and the file: whether it
    /// loaded the file, the id of the process this engine started there, and
    /// the id the player reports (asked only when there is no such process).
    Reused { loaded: bool, child_pid: Option<u32>, ipc_pid: Option<u32> },
    /// The command could not be started: whether it went through
    /// `systemd-run`, whether the program was not found, and the error.
    SpawnFailed { scoped: bool, not_found: bool, message: String },
    /// The command was started with process id `pid`; after a short wait
    /// it had ended with the exit code inside (`Some`), or still runs.
    Spawned { exited: Option<Option<i32>>, pid: u32 },
}

/// What to do next in a launch.
pub enum LaunchAction {
    /// Stop every player, quitting the given sockets, then report `Begin`.
    StopAll { sockets: Vec<String> },
    /// Stop the player of `output` (whose known socket is given), then
    /// report `Begin`.
    StopOutput { output: String, known_socket: Option<String> },
    /// Set the properties on the running player and load the file, then
    /// report `Reused`.
    Reuse { mute: IpcValue, volume: IpcValue, panscan: IpcValue, keepaspect: IpcValue, file: String },
    /// Stop the output's player first when asked (its known socket given)
    /// and remove the socket file; then start the command and report
    /// `SpawnFailed` or `Spawned`.
    Spawn { stop_first: bool, known_socket: Option<String>, program: String, args: Vec<String> },
    /// The launch is over: the process id of the player, or the message.
    Done(Result<u32, String>),
}

/// The socket a map gives an output, if any.
pub open spec fn socket_at(m: Map<Seq<char>, Seq<char>>, o: Seq<char>) -> Option<Seq<char>> {
    if m.dom().contains(o) { Some(m[o]) } else { None }
}

/// An optional text as plain value.
pub open spec fn opt_view(o: Option<String>) -> Option<Seq<char>> {
    match o { Some(s) => Some(s@), None => None }
}

/// The options a launched player gets: those of `mpv_options_spec` for the
/// chosen file, then its IPC socket.
pub open spec fn launch_options_spec(req: LaunchRequest) -> Seq<char> {
    mpv_options_spec(req.scaling@, req.mute, req.volume, req.hwdec@, crate::scanner::path_is_image(req.path@))
        + " --input-ipc-server="@ + req.sock@
}

/// `a` starts the player of the request, through `systemd-run` when
/// `scoped`, after stopping the output's player (known socket `known`)
/// when `stop_first`.
pub open spec fn is_spawn(a: LaunchAction, req: LaunchRequest, scoped: bool, stop_first: bool, known: Option<Seq<char>>) -> bool {
    &&& a matches LaunchAction::Spawn { stop_first: s, known_socket: k, program, args }
    &&& s == stop_first
    &&& opt_view(k) == known
    &&& (program@, views(args@)) == launch_command_spec(scoped, req.mpv_bin@, req.auto_pause, launch_options_spec(req), req.output@, req.file@)
}

/// `a` hands the request's settings and file to the running player.
pub open spec fn is_reuse(a: LaunchAction, req: LaunchRequest) -> bool {
    &&& a matches LaunchAction::Reuse { mute: m, volume: v, panscan: p, keepaspect: k, file: f }
    &&& m == IpcValue::Flag(req.mute)
    &&& v == IpcValue::Count(clamp_volume_spec(req.volume) as u64)
    &&& (p matches IpcValue::Decimal(t) && t@ == scaling_properties_spec(req.scaling@).0)
    &&& k == IpcValue::Flag(scaling_properties_spec(req.scaling@).1)
    &&& f@ == req.file@
}

/// The players of an engine fit a launch on `output`: one on all screens
/// (`*`) runs alone, one on a single screen never beside one on all
/// screens.
pub open spec fn launch_shape(output: Seq<char>, outs: Seq<Seq<char>>) -> bool {
    if output == "*"@ {
        forall|k: Seq<char>| #[trigger] outs.contains(k) ==> k == "*"@
    } else {
        !outs.contains("*"@)
    }
}

/// Forgetting a player keeps the players fit for a launch.
proof fn lemma_shape_without(output: Seq<char>, s: Seq<Seq<char>>, x: Seq<char>)
    requires
        launch_shape(output, s),
    ensures
        launch_shape(output, without(s, x)),
{
    crate::strlist::lemma_without(s, x);
    if output == "*"@ {
        assert forall|k: Seq<char>| #[trigger] without(s, x).contains(k) implies k == "*"@ by {
            if k != x {
                assert(s.contains(k));
            }
        }
    } else {
        if x != "*"@ {
            assert(!s.contains("*"@));
        }
    }
}

/// Recording the launched player keeps the players fit for its launch.
proof fn lemma_shape_push(output: Seq<char>, s: Seq<Seq<char>>)
    requires
        launch_shape(output, s),
    ensures
        launch_shape(output, push_absent(s, output)),
{
    if !s.contains(output) {
        if output == "*"@ {
            assert forall|k: Seq<char>| #[trigger] s.push(output).contains(k) implies k == "*"@ by {
                if k != output {
                    let i = choose|i: int| 0 <= i < s.push(output).len() && s.push(output)[i] == k;
                    assert(s[i] == k);
                    assert(s.contains(k));
                }
            }
        } else {
            assert forall|i: int| 0 <= i < s.push(output).len() implies s.push(output)[i] != "*"@ by {
                if i < s.len() {
                    assert(s[i] == s.push(output)[i]);
                }
            }
        }
    }
}

impl WallpaperEngine {
    /// One step of showing a wallpaper: from the state of the engine and
    /// what happened, the next thing to do. A launch starts with `Start`,
    /// which stops every player (for `*`) or the one on all screens; a
    /// player that still runs and answers takes the file through its
    /// socket; otherwise the output's player is stopped and a new one
    /// started, through `systemd-run` when usable and, when that fails,
    /// directly. A player that ended right after its start is an error and
    /// is not recorded.
    pub fn launch_step(&mut self, req: &LaunchRequest, ev: LaunchEvent) -> (a: LaunchAction)
        requires
            old(self).wf(),
        ensures
            final(self).wf(),
            match ev {
                LaunchEvent::Start => if req.output@ == "*"@ {
                    &&& a matches LaunchAction::StopAll { sockets }
                    &&& sockets@.len() == old(self).socket_map().dom().len()
                    &&& values_of(old(self).socket_map(), views(sockets@))
                    &&& final(self).process_outputs().len() == 0
                    &&& final(self).socket_map() == Map::<Seq<char>, Seq<char>>::empty()
                    &&& !final(self).paused()
                } else {
                    &&& a matches LaunchAction::StopOutput { output, known_socket }
                    &&& output@ == "*"@
                    &&& opt_view(known_socket) == socket_at(old(self).socket_map(), "*"@)
                    &&& final(self).process_outputs() == without(old(self).process_outputs(), "*"@)
                    &&& final(self).socket_map() == old(self).socket_map().remove("*"@)
                    &&& final(self).paused() == old(self).paused()
                },
                LaunchEvent::Begin { has_child, child_running, ipc_alive } => if can_reuse_spec(has_child, child_running, ipc_alive) {
                    &&& is_reuse(a, *req)
                    &&& final(self).process_outputs() == old(self).process_outputs()
                    &&& final(self).socket_map() == old(self).socket_map()
                    &&& final(self).paused() == old(self).paused()
                } else {
                    &&& is_spawn(a, *req, req.use_scope, true, socket_at(old(self).socket_map(), req.output@))
                    &&& final(self).process_outputs() == without(old(self).process_outputs(), req.output@)
                    &&& final(self).socket_map() == old(self).socket_map().remove(req.output@)
                    &&& final(self).paused() == old(self).paused()
                },
                LaunchEvent::Reused { loaded, child_pid, ipc_pid } => if loaded {
                    &&& a == LaunchAction::Done(Ok(match child_pid { Some(p) => p, None => match ipc_pid { Some(p) => p, None => 0u32 } }))
                    &&& final(self).process_outputs() == old(self).process_outputs()
                    &&& final(self).socket_map() == old(self).socket_map().insert(req.output@, req.sock@)
                    &&& !final(self).paused()
                } else {
                    &&& is_spawn(a, *req, req.use_scope, true, socket_at(old(self).socket_map(), req.output@))
                    &&& final(self).process_outputs() == without(old(self).process_outputs(), req.output@)
                    &&& final(self).socket_map() == old(self).socket_map().remove(req.output@)
                    &&& final(self).paused() == old(self).paused()
                },
                LaunchEvent::SpawnFailed { scoped, not_found, message } => {
                    &&& (if scoped {
                        is_spawn(a, *req, false, false, None)
                    } else {
                        a matches LaunchAction::Done(Err(m))
                            && m@ == spawn_error_spec(not_found, message@, req.distro@, req.install@, req.output@, req.path@)
                    })
                    &&& final(self).process_outputs() == old(self).process_outputs()
                    &&& final(self).socket_map() == old(self).socket_map()
                    &&& final(self).paused() == old(self).paused()
                },
                LaunchEvent::Spawned { exited, pid } => match exited {
                    Some(code) => {
                        &&& a matches LaunchAction::Done(Err(m))
                        &&& m@ == early_exit_spec(code, req.distro@, req.install@)
                        &&& final(self).process_outputs() == old(self).process_outputs()
                        &&& final(self).socket_map() == old(self).socket_map()
                        &&& final(self).paused() == old(self).paused()
                    },
                    None => {
                        &&& a == LaunchAction::Done(Ok(pid))
                        &&& final(self).process_outputs() == push_absent(old(self).process_outputs(), req.output@)
                        &&& final(self).socket_map() == old(self).socket_map().insert(req.output@, req.sock@)
                        &&& !final(self).paused()
                    },
                },
            },
            ev is Start ==> launch_shape(req.output@, final(self).process_outputs()),
            launch_shape(req.output@, old(self).process_outputs()) ==> launch_shape(req.output@, final(self).process_outputs()),
    {
        let ghost before = self.process_outputs();
        let ghost out = req.output@;
        proof {
            crate::strlist::lemma_without(before, out);
            crate::strlist::lemma_without(before, "*"@);
        }
        match ev {
            LaunchEvent::Start => {
                if str_eq(req.output.as_str(), "*") {
                    let sockets = self.forget_all();
                    proof {
                        assert(launch_shape(out, self.process_outputs()));
                    }
                    LaunchAction::StopAll { sockets }
                } else {
                    let known_socket = self.forget_output("*");
                    proof {
                        assert(!self.process_outputs().contains("*"@));
                        assert(launch_shape(out, self.process_outputs()));
                    }
                    LaunchAction::StopOutput { output: owned("*"), known_socket }
                }
            },
            LaunchEvent::Begin { has_child, child_running, ipc_alive } => {
                if can_reuse(has_child, child_running, ipc_alive) {
                    let (panscan, keepaspect) = scaling_properties(req.scaling.as_str());
                    LaunchAction::Reuse {
                        mute: IpcValue::Flag(req.mute),
                        volume: IpcValue::Count(clamp_volume(req.volume) as u64),
                        panscan,
                        keepaspect,
                        file: req.file.clone(),
                    }
                } else {
                    self.respawn(req)
                }
            },
            LaunchEvent::Reused { loaded, child_pid, ipc_pid } => {
                if loaded {
                    self.record_reuse(req.output.as_str(), req.sock.clone());
                    LaunchAction::Done(Ok(reused_pid(child_pid, ipc_pid)))
                } else {
                    self.respawn(req)
                }
            },
            LaunchEvent::SpawnFailed { scoped, not_found, message } => {
                if scoped {
                    self.spawn_action(req, false, false, None)
                } else {
                    LaunchAction::Done(Err(spawn_error_message(
                        not_found,
                        message.as_str(),
                        req.distro.as_str(),
                        req.install.as_str(),
                        req.output.as_str(),
                        req.path.as_str(),
                    )))
                }
            },
            LaunchEvent::Spawned { exited, pid } => match exited {
                Some(code) => LaunchAction::Done(Err(early_exit_message(code, req.distro.as_str(), req.install.as_str()))),
                None => {
                    self.record_launch(req.output.as_str(), req.sock.clone());
                    proof {
                        if launch_shape(out, before) {
                            lemma_shape_push(out, before);
                        }
                    }
                    LaunchAction::Done(Ok(pid))
                },
            },
        }
    }

    /// Forgets the output's player and starts a new one.
    fn respawn(&mut self, req: &LaunchRequest) -> (a: LaunchAction)
        requires
            old(self).wf(),
        ensures
            final(self).wf(),
            is_spawn(a, *req, req.use_scope, true, socket_at(old(self).socket_map(), req.output@)),
            final(self).process_outputs() == without(old(self).process_outputs(), req.output@),
            final(self).socket_map() == old(self).socket_map().remove(req.output@),
            final(self).paused() == old(self).paused(),
            launch_shape(req.output@, old(self).process_outputs()) ==> launch_shape(req.output@, final(self).process_outputs()),
    {
        let known = self.forget_output(req.output.as_str());
        proof {
            if launch_shape(req.output@, old(self).process_outputs()) {
                lemma_shape_without(req.output@, old(self).process_outputs(), req.output@);
            }
        }
        self.spawn_action(req, req.use_scope, true, known)
    }

    /// The command that starts the request's player.
    fn spawn_action(&self, req: &LaunchRequest, scoped: bool, stop_first: bool, known_socket: Option<String>) -> (a: LaunchAction)
        ensures
            is_spawn(a, *req, scoped, stop_first, opt_view(known_socket)),
    {
        let is_image = crate::scanner::is_image_path(req.path.as_str());
        let mut opts = WallpaperEngine::build_mpv_options(req.scaling.as_str(), req.mute, req.volume, req.hwdec.as_str(), is_image);
        push_str(&mut opts, " --input-ipc-server=");
        push_str(&mut opts, req.sock.as_str());
        let (program, args) = launch_command(scoped, req.mpv_bin.as_str(), req.auto_pause, opts.as_str(), req.output.as_str(), req.file.as_str());
        LaunchAction::Spawn { stop_first, known_socket, program, args }
    }
}

/// Some key of the map has the value `v`.
pub open spec fn is_value_of(m: Map<Seq<char>, Seq<char>>, v: Seq<char>) -> bool {
    exists|k: Seq<char>| #[trigger] m.dom().contains(k) && m[k] == v
}

/// Every element of the list is a value of the map.
pub open spec fn values_of(m: Map<Seq<char>, Seq<char>>, vs: Seq<Seq<char>>) -> bool {
    forall|i: int| 0 <= i < vs.len() ==> is_value_of(m, #[trigger] vs[i])
}

/// No element occurs twice.
pub open spec fn distinct_seq(s: Seq<Seq<char>>) -> bool {
    forall|i: int, j: int| 0 <= i < j < s.len() ==> s[i] != s[j]
}

/// Appending an element that is absent keeps a list without repeats.
pub proof fn lemma_push_absent_distinct(s: Seq<Seq<char>>, x: Seq<char>)
    requires
        distinct_seq(s),
    ensures
        distinct_seq(push_absent(s, x)),
{
    if !s.contains(x) {
        assert forall|i: int, j: int| 0 <= i < j < s.push(x).len() implies s.push(x)[i] != s.push(x)[j] by {
            if j == s.len() {
                assert(s[i] == s.push(x)[i]);
            }
        }
    }
}

/// Removing an element from a list without repeats leaves a list without
/// repeats.
pub proof fn lemma_without_distinct(s: Seq<Seq<char>>, x: Seq<char>)
    requires
        distinct_seq(s),
    ensures
        distinct_seq(without(s, x)),
    decreases s.len(),
{
    if s.len() > 0 {
        let t = s.drop_last();
        lemma_without_distinct(t, x);
        crate::strlist::lemma_without(t, x);
        if s.last() != x {
            let w = without(t, x);
            assert forall|i: int, j: int| 0 <= i < j < without(s, x).len() implies without(s, x)[i] != without(s, x)[j] by {
                if j == w.len() {
                    assert(w.contains(w[i]));
                    assert(t.contains(w[i]));
                    let k = choose|k: int| 0 <= k < t.len() && t[k] == w[i];
                    assert(s[k] != s[s.len() - 1]);
                }
            }
        }
    }
}

} // verus!
