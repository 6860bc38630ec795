use aura::engine::ipc::{
    cycle_pause_result, loadfile_command, output_of_socket_stem, pause_from_reply, pid_from_reply, reply_is_success,
    reply_shows_alive, set_property_command, socket_dir, socket_name, socket_path_for_output, IpcValue,
};
use aura::engine::outputs::{detect_outputs, parse_cosmic_randr, parse_resolution, parse_wlr_randr, same_outputs};
use aura::engine::player::{
    any_paused, autostart_exec, autostart_file, can_reuse, clamp_volume, desktop_entry, early_exit_message, launch_command,
    mpvpaper_candidates, pick_binary, reused_pid, scaling_properties, shell_escape, spawn_error_message, systemd_run_usable,
    toggle_pause_step, LaunchAction, LaunchEvent, LaunchRequest, PauseStep, WallpaperEngine,
};
use aura::engine::sysinfo::{
    check_engine_health, comm_is_mpvpaper, detect_distro_command, detect_os_pretty_name, is_pid_name, is_pid_stopped,
    pid_of_proc_entry, trim_matches, EngineHealth, HealthProbe,
};

#[test]
fn test_build_mpv_options() {
    let opts_fit_mute = WallpaperEngine::build_mpv_options("fit", true, 100, "auto-safe", false);
    assert!(opts_fit_mute.contains("--hwdec=auto-safe"));
    assert!(opts_fit_mute.contains("--no-audio"));
    assert!(opts_fit_mute.contains("--demuxer-max-bytes=24M"));
    assert!(opts_fit_mute.contains("--vd-lavc-threads=2"));
    assert!(opts_fit_mute.contains("--background-color=#000000"));
    assert!(!opts_fit_mute.contains("--panscan"));

    let opts_fill_sound = WallpaperEngine::build_mpv_options("fill", false, 80, "vaapi", false);
    assert!(opts_fill_sound.contains("--hwdec=vaapi"));
    assert!(!opts_fill_sound.contains("--no-audio"));
    assert!(opts_fill_sound.contains("--volume=80"));
    assert!(opts_fill_sound.contains("--panscan=1.0"));

    let opts_stretch = WallpaperEngine::build_mpv_options("stretch", false, 100, "nvdec", false);
    assert!(opts_stretch.contains("--no-keepaspect"));

    let opts_image = WallpaperEngine::build_mpv_options("fill", true, 100, "auto-safe", true);
    assert!(opts_image.contains("image-display-duration=inf"));
    assert!(opts_image.contains("--pause=yes"));
    assert!(opts_image.contains("--scale=spline36"));
    assert!(opts_image.contains("--demuxer-max-bytes=8M"));
    assert!(opts_image.contains("--vd-lavc-threads=1"));
    assert!(opts_image.contains("--panscan=1.0"));
}

#[test]
fn test_shell_escape_safety() {
    assert_eq!(shell_escape("normal_string"), "'normal_string'");
    assert_eq!(shell_escape("with space"), "'with space'");
    assert_eq!(shell_escape("with$dollar"), "'with$dollar'");
    assert_eq!(shell_escape("with`backtick`"), "'with`backtick`'");
    assert_eq!(shell_escape("with'quote"), "'with'\\''quote'");
}

#[test]
fn test_socket_paths() {
    let dir = socket_dir(None, Some("/home/test"));
    let sock_default = socket_path_for_output(&dir, "*");
    assert!(sock_default.ends_with("mpv_all.sock"));

    let sock_edp = socket_path_for_output(&dir, "eDP-1");
    assert!(sock_edp.ends_with("mpv_eDP-1.sock"));

    let sock_special = socket_path_for_output(&dir, "HDMI-A-1/test");
    assert!(sock_special.ends_with("mpv_HDMI-A-1test.sock"));
}

#[test]
fn test_engine_init() {
    let engine = WallpaperEngine::new();
    assert!(!engine.is_paused);
    assert!(!engine.is_running());
}

#[test]
fn test_detect_distro_command() {
    let (distro, cmd) = detect_distro_command(None);
    assert!(!distro.is_empty());
    assert!(!cmd.is_empty());
}

#[test]
fn test_detect_os_pretty_name() {
    let os = detect_os_pretty_name(None);
    assert!(!os.is_empty());
}

#[test]
fn test_reap_and_processes_keys() {
    let mut engine = WallpaperEngine::new();
    assert!(engine.processes_keys().is_empty());
    let dead = engine.reap_dead_processes(&Vec::new());
    assert!(dead.is_empty());
}

#[test]
fn mpv_options_exact_text() {
    assert_eq!(
        WallpaperEngine::build_mpv_options("fit", false, 150, "no", false),
        "loop-file=inf --image-display-duration=inf --hwdec=no --no-config --demuxer-max-bytes=24M --demuxer-readahead-secs=2 --vd-lavc-threads=2 --background-color=#000000 --volume=100"
    );
    assert!(WallpaperEngine::build_mpv_options("fit", false, 0, "no", false).ends_with("--no-audio"));
    assert_eq!(clamp_volume(40), 40);
    assert_eq!(clamp_volume(255), 100);
}

#[test]
fn socket_names_and_dirs() {
    assert_eq!(socket_name("DP-1"), "mpv_DP-1.sock");
    assert_eq!(socket_name("***"), "mpv_all.sock");
    assert_eq!(socket_name("Ünï_1"), "mpv_Ünï_1.sock");
    assert_eq!(socket_dir(Some("/run/user/1000"), Some("/home/u")), "/run/user/1000/aura");
    assert_eq!(socket_dir(Some(""), None), "/tmp/.cache/aura/ipc");
    assert_eq!(output_of_socket_stem("mpv_DP-1"), "DP-1");
    assert_eq!(output_of_socket_stem("other"), "other");
}

#[test]
fn ipc_commands_and_replies() {
    assert_eq!(loadfile_command("/v/a.mp4").unwrap(), "{\"command\":[\"loadfile\",\"/v/a.mp4\",\"replace\"]}");
    assert_eq!(loadfile_command("/v/say \"hi\".mp4").unwrap(), "{\"command\":[\"loadfile\",\"/v/say \\\"hi\\\".mp4\",\"replace\"]}");
    assert_eq!(
        loadfile_command("/v/a\\b\tc\n\u{1}.mp4").unwrap(),
        "{\"command\":[\"loadfile\",\"/v/a\\\\b\\tc\\n\\u0001.mp4\",\"replace\"]}"
    );
    assert_eq!(set_property_command("mute", &IpcValue::Flag(true)).unwrap(), "{\"command\":[\"set_property\",\"mute\",true]}");
    assert_eq!(set_property_command("volume", &IpcValue::Count(80)).unwrap(), "{\"command\":[\"set_property\",\"volume\",80]}");
    assert_eq!(set_property_command("panscan", &IpcValue::Decimal("1.0".to_string())).unwrap(), "{\"command\":[\"set_property\",\"panscan\",1.0]}");
    assert!(reply_is_success("{\"data\":null,\"error\":\"success\"}"));
    assert!(!reply_is_success("{\"error\":\"property unavailable\"}"));
    assert!(reply_shows_alive("{\"data\":false,\"error\":\"success\"}"));
    assert!(!reply_shows_alive(""));
    assert_eq!(pause_from_reply("{\"data\":true,\"error\":\"success\"}"), Some(true));
    assert_eq!(pause_from_reply("{\"data\":3}"), None);
    assert_eq!(pause_from_reply("not json"), None);
    assert_eq!(pid_from_reply("{\"data\":4242,\"error\":\"success\"}"), Some(4242));
    assert_eq!(pid_from_reply("{\"error\":\"success\"}"), None);
    assert!(!cycle_pause_result("garbage"));
    assert!(cycle_pause_result("{\"data\":true}"));
}

#[test]
fn launch_and_reuse_decisions() {
    let (prog, args) = launch_command(true, "/usr/bin/mpvpaper", true, "opts", "DP-1", "/v.mp4");
    assert_eq!(prog, "systemd-run");
    assert_eq!(args, vec!["--user", "--scope", "--quiet", "/usr/bin/mpvpaper", "-l", "background", "-p", "-o", "opts", "DP-1", "/v.mp4"]);
    let (prog, args) = launch_command(false, "mpvpaper", false, "o", "*", "/i.png");
    assert_eq!(prog, "mpvpaper");
    assert_eq!(args, vec!["-l", "background", "-o", "o", "*", "/i.png"]);
    assert!(can_reuse(true, true, true));
    assert!(!can_reuse(true, false, true));
    assert!(can_reuse(false, false, true));
    assert!(!can_reuse(false, true, false));
    assert_eq!(reused_pid(Some(5), Some(6)), 5);
    assert_eq!(reused_pid(None, Some(6)), 6);
    assert_eq!(reused_pid(None, None), 0);
    let (pan, keep) = scaling_properties("stretch");
    assert!(matches!(pan, IpcValue::Decimal(ref t) if t == "0.0"));
    assert!(matches!(keep, IpcValue::Flag(false)));
}

#[test]
fn error_messages() {
    assert_eq!(
        spawn_error_message(true, "x", "Fedora", "sudo dnf install -y mpv-libs ffmpeg-free", "DP-1", "/v.mp4"),
        "No se encontró 'mpvpaper'. En Fedora, instala las dependencias con: sudo dnf install -y mpv-libs ffmpeg-free"
    );
    assert_eq!(
        spawn_error_message(false, "denied", "Linux", "c", "DP-1", "/v.mp4"),
        "Error al iniciar mpvpaper: denied (output: DP-1, video: /v.mp4)"
    );
    assert_eq!(
        early_exit_message(Some(127), "Arch / CachyOS", "cmd"),
        "mpvpaper falló al cargar librerías multimedia (código 127). En Arch / CachyOS, ejecuta: cmd"
    );
    assert_eq!(
        early_exit_message(Some(-3), "Linux", "cmd"),
        "mpvpaper terminó inmediatamente con código Some(-3). Verifica el formato y dependencias multimedia."
    );
    assert_eq!(
        early_exit_message(None, "Linux", "cmd"),
        "mpvpaper terminó inmediatamente con código None. Verifica el formato y dependencias multimedia."
    );
}

#[test]
fn distro_and_os_release() {
    let pop = "NAME=\"Pop!_OS\"\nPRETTY_NAME=\"Pop!_OS 24.04 LTS\"\nID=pop\n";
    assert_eq!(detect_distro_command(Some(pop)), ("Pop!_OS / Ubuntu / Debian", "sudo apt install -y libmpv2 ffmpeg"));
    assert_eq!(detect_os_pretty_name(Some(pop)), "Pop!_OS 24.04 LTS");
    let fedora = "NAME='Fedora Linux'\nPRETTY_NAME=\"\"\n";
    assert_eq!(detect_distro_command(Some(fedora)).0, "Fedora");
    assert_eq!(detect_os_pretty_name(Some(fedora)), "Fedora Linux");
    assert_eq!(detect_os_pretty_name(Some("ID=x\n")), "Linux");
    assert_eq!(detect_distro_command(Some("ID=gentoo")).0, "Linux");
    assert_eq!(trim_matches(&"\"\"ab\"".chars().collect::<Vec<char>>(), '"'), vec!['a', 'b']);
}

#[test]
fn proc_status_and_names() {
    assert!(is_pid_stopped(Some("Name:\tmpvpaper\nState:\tT (stopped)\n")));
    assert!(!is_pid_stopped(Some("Name:\tmpvpaper\nState:\tS (sleeping)\n")));
    assert!(!is_pid_stopped(None));
    assert!(!is_pid_stopped(Some("Name:\tx\n")));
    assert!(comm_is_mpvpaper("mpvpaper\n"));
    assert!(!comm_is_mpvpaper("mpv\n"));
    assert_eq!(pid_of_proc_entry("1234"), Some(1234));
    assert_eq!(pid_of_proc_entry("self"), None);
    assert_eq!(pid_of_proc_entry("99999999999"), None);
    assert!(is_pid_name("42"));
    assert!(!is_pid_name(""));
    assert!(!is_pid_name("4a"));
}

#[test]
fn engine_health() {
    assert_eq!(check_engine_health(HealthProbe::Finished { success: true, code: Some(0), stderr: String::new() }), EngineHealth::Ready);
    assert_eq!(
        check_engine_health(HealthProbe::Finished { success: false, code: Some(127), stderr: String::new() }),
        EngineHealth::MissingLibrary("libmpv".to_string())
    );
    assert_eq!(
        check_engine_health(HealthProbe::Finished { success: false, code: Some(1), stderr: "boom".to_string() }),
        EngineHealth::ExecutionError("boom".to_string())
    );
    assert_eq!(check_engine_health(HealthProbe::FailedToStart { not_found: true, message: "nf".to_string() }), EngineHealth::MissingBinary);
}

#[test]
fn engine_bookkeeping() {
    let mut e = WallpaperEngine::new();
    e.record_launch("DP-1", "/s/mpv_DP-1.sock".to_string());
    e.record_launch("HDMI-A-1", "/s/mpv_HDMI-A-1.sock".to_string());
    e.record_launch("DP-1", "/s/mpv_DP-1.sock".to_string());
    assert_eq!(e.processes_keys(), vec!["DP-1", "HDMI-A-1"]);
    assert!(e.is_running());
    assert_eq!(e.target_sockets(Some("DP-1")), vec!["/s/mpv_DP-1.sock"]);
    assert_eq!(e.target_sockets(None).len(), 2);
    let dead = e.reap_dead_processes(&vec!["HDMI-A-1".to_string(), "nope".to_string()]);
    assert_eq!(dead, vec!["HDMI-A-1"]);
    assert_eq!(e.socket_of("HDMI-A-1"), None);
    assert_eq!(e.forget_output("DP-1"), Some("/s/mpv_DP-1.sock".to_string()));
    assert!(!e.is_running());
    e.discover_sockets(&vec![("eDP-1".to_string(), "/s/mpv_eDP-1.sock".to_string())]);
    assert_eq!(e.socket_of("eDP-1"), Some("/s/mpv_eDP-1.sock".to_string()));
    e.set_paused(true);
    assert_eq!(e.forget_all(), vec!["/s/mpv_eDP-1.sock"]);
    assert!(!e.is_paused);
}

#[test]
fn pause_steps() {
    assert!(matches!(toggle_pause_step(&vec![Some(true), None], false), PauseStep::ReportedByIpc(true)));
    assert!(matches!(toggle_pause_step(&vec![None], true), PauseStep::ResumeAll));
    assert!(matches!(toggle_pause_step(&vec![], false), PauseStep::PauseAll));
    assert!(any_paused(Some(false), true) == false);
    assert!(any_paused(None, true));
}

#[test]
fn binaries_and_autostart() {
    let c = mpvpaper_candidates(Some("/opt/aura"), Some("/home/u"));
    assert_eq!(c, vec!["/opt/aura/mpvpaper", "/home/u/.local/bin/mpvpaper", "/usr/local/bin/mpvpaper", "/usr/bin/mpvpaper"]);
    assert_eq!(pick_binary(&c, &vec![false, false, true]), "/usr/local/bin/mpvpaper");
    assert_eq!(pick_binary(&c, &vec![]), "mpvpaper");
    assert_eq!(autostart_file(Some("/home/u")), "/home/u/.config/autostart/io.github.antwny.aura.desktop");
    assert_eq!(autostart_exec(true, Some("/x"), None), ("flatpak run io.github.antwny.aura --hidden".to_string(), "flatpak".to_string()));
    assert_eq!(autostart_exec(false, None, Some("/bin/aura")), ("/bin/aura --hidden".to_string(), "/bin/aura".to_string()));
    let entry = desktop_entry("aura", "aura --hidden");
    assert!(entry.starts_with("[Desktop Entry]\nType=Application\n"));
    assert!(entry.contains("\nTryExec=aura\nExec=aura --hidden\n"));
    assert!(entry.ends_with("Categories=Utility;DesktopSettings;\n"));
}

#[test]
fn randr_parsing() {
    let cosmic = "DP-1 (enabled)\n  3840x2160 @ 60.000 Hz (current)\n  1920x1080 @ 60.000 Hz\nHDMI-A-1 (enabled)\n  2560x1440 @ 144.000 Hz (current)\nDP-2 (disabled)\n";
    let outs = parse_cosmic_randr(cosmic);
    assert_eq!(outs.len(), 2);
    assert_eq!(outs[0].name, "DP-1");
    assert_eq!(outs[0].resolution, "3840x2160");
    assert_eq!((outs[0].width, outs[0].height), (3840, 2160));
    assert!(outs[0].is_primary);
    assert_eq!(outs[1].name, "HDMI-A-1");
    assert!(!outs[1].is_primary);
    let wlr = "eDP-1 \"Panel\"\n  Enabled: yes\nHDMI-A-2 \"TV\"\n";
    let w = parse_wlr_randr(wlr);
    assert_eq!(w.len(), 2);
    assert_eq!(w[1].name, "HDMI-A-2");
    assert_eq!(w[1].resolution, "1920x1080");
    let fallback = detect_outputs(Some(""), None);
    assert_eq!(fallback.len(), 1);
    assert_eq!(fallback[0].name, "*");
    assert_eq!(fallback[0].description, "All Monitors");
    assert!(same_outputs(&outs, &parse_cosmic_randr(cosmic)));
    assert!(!same_outputs(&outs, &w));
    assert_eq!(parse_resolution("2560x1440"), (2560, 1440));
    assert_eq!(parse_resolution("abc"), (1920, 1080));
    assert_eq!(parse_resolution("x"), (1920, 1080));
    assert_eq!(parse_resolution("1280xabc"), (1280, 1080));
    let native = parse_cosmic_randr("DP-3 (enabled)\n");
    assert_eq!(native[0].resolution, "Native");
}

#[test]
fn test_can_use_systemd_run() {
    assert!(systemd_run_usable(false, true, true));
    assert!(!systemd_run_usable(true, true, true));
    assert!(!systemd_run_usable(false, false, true));
    assert!(!systemd_run_usable(false, true, false));
}

#[test]
fn test_ipc_get_pid_non_existent() {
    assert_eq!(pid_from_reply(""), None);
    assert_eq!(pid_from_reply("not json"), None);
    assert_eq!(pid_from_reply(r#"{"data":null,"error":"property unavailable"}"#), None);
    assert_eq!(pid_from_reply(r#"{"data":4321,"error":"success"}"#), Some(4321));
}

fn launch_request(output: &str, path: &str, use_scope: bool) -> LaunchRequest {
    LaunchRequest {
        output: output.to_string(),
        path: path.to_string(),
        file: path.to_string(),
        scaling: "fill".to_string(),
        mute: false,
        volume: 150,
        hwdec: "auto".to_string(),
        auto_pause: false,
        sock: format!("/run/aura/{}.sock", output),
        mpv_bin: "mpvpaper".to_string(),
        use_scope,
        distro: "Arch Linux".to_string(),
        install: "sudo pacman -S mpv".to_string(),
    }
}

#[test]
fn launch_spawns_a_player_and_records_it() {
    let mut e = WallpaperEngine::new();
    let req = launch_request("DP-1", "/w/a.mp4", true);
    match e.launch_step(&req, LaunchEvent::Start) {
        LaunchAction::StopOutput { output, known_socket } => {
            assert_eq!(output, "*");
            assert_eq!(known_socket, None);
        }
        _ => panic!("a single screen first stops the all-screens player"),
    }
    let a = e.launch_step(&req, LaunchEvent::Begin { has_child: false, child_running: false, ipc_alive: false });
    match a {
        LaunchAction::Spawn { stop_first, known_socket, program, args } => {
            assert!(stop_first);
            assert_eq!(known_socket, None);
            assert_eq!(program, "systemd-run");
            assert_eq!(&args[..4], &["--user", "--scope", "--quiet", "mpvpaper"]);
            assert_eq!(args[args.len() - 2], "DP-1");
            assert!(args[args.len() - 3].ends_with(" --panscan=1.0 --input-ipc-server=/run/aura/DP-1.sock"));
            assert!(args[args.len() - 3].contains("--volume=100"));
        }
        _ => panic!("nothing to reuse: a player is started"),
    }
    match e.launch_step(&req, LaunchEvent::SpawnFailed { scoped: true, not_found: false, message: "denied".to_string() }) {
        LaunchAction::Spawn { stop_first, program, args, .. } => {
            assert!(!stop_first);
            assert_eq!(program, "mpvpaper");
            assert_eq!(args[0], "-l");
        }
        _ => panic!("a failed scope is retried directly"),
    }
    match e.launch_step(&req, LaunchEvent::Spawned { exited: None, pid: 4242 }) {
        LaunchAction::Done(Ok(pid)) => assert_eq!(pid, 4242),
        _ => panic!("a running player is the result"),
    }
    assert_eq!(e.processes_keys(), vec!["DP-1".to_string()]);
    assert_eq!(e.socket_of("DP-1"), Some("/run/aura/DP-1.sock".to_string()));
}

#[test]
fn launch_reports_an_early_exit_without_recording() {
    let mut e = WallpaperEngine::new();
    let req = launch_request("DP-1", "/w/a.mp4", false);
    e.launch_step(&req, LaunchEvent::Start);
    e.launch_step(&req, LaunchEvent::Begin { has_child: false, child_running: false, ipc_alive: false });
    match e.launch_step(&req, LaunchEvent::Spawned { exited: Some(Some(127)), pid: 7 }) {
        LaunchAction::Done(Err(m)) => assert_eq!(
            m,
            "mpvpaper falló al cargar librerías multimedia (código 127). En Arch Linux, ejecuta: sudo pacman -S mpv"
        ),
        _ => panic!("an early exit is an error"),
    }
    assert!(e.processes_keys().is_empty());
    assert!(!e.is_running());
}

#[test]
fn launch_reports_a_spawn_failure_without_scope() {
    let mut e = WallpaperEngine::new();
    let req = launch_request("DP-1", "/w/a.mp4", false);
    match e.launch_step(&req, LaunchEvent::SpawnFailed { scoped: false, not_found: false, message: "boom".to_string() }) {
        LaunchAction::Done(Err(m)) => {
            assert_eq!(m, "Error al iniciar mpvpaper: boom (output: DP-1, video: /w/a.mp4)")
        }
        _ => panic!("an unscoped failure ends the launch"),
    }
}

#[test]
fn launch_reuses_a_running_player() {
    let mut e = WallpaperEngine::new();
    let req = launch_request("DP-1", "/w/a.mp4", false);
    match e.launch_step(&req, LaunchEvent::Begin { has_child: true, child_running: true, ipc_alive: true }) {
        LaunchAction::Reuse { mute, volume, panscan, keepaspect, file } => {
            assert!(matches!(mute, IpcValue::Flag(false)));
            assert!(matches!(volume, IpcValue::Count(100)));
            assert!(matches!(panscan, IpcValue::Decimal(ref t) if t == "1.0"));
            assert!(matches!(keepaspect, IpcValue::Flag(true)));
            assert_eq!(file, "/w/a.mp4");
        }
        _ => panic!("a live player is reused"),
    }
    match e.launch_step(&req, LaunchEvent::Reused { loaded: true, child_pid: None, ipc_pid: Some(99) }) {
        LaunchAction::Done(Ok(pid)) => assert_eq!(pid, 99),
        _ => panic!("a loaded file ends the launch"),
    }
    assert!(e.processes_keys().is_empty());
    assert_eq!(e.socket_of("DP-1"), Some("/run/aura/DP-1.sock".to_string()));
    match e.launch_step(&req, LaunchEvent::Reused { loaded: false, child_pid: None, ipc_pid: None }) {
        LaunchAction::Spawn { stop_first, known_socket, .. } => {
            assert!(stop_first);
            assert_eq!(known_socket, Some("/run/aura/DP-1.sock".to_string()));
        }
        _ => panic!("a refused file falls back to a new player"),
    }
    assert_eq!(e.socket_of("DP-1"), None);
}

#[test]
fn launch_on_all_screens_replaces_every_player() {
    let mut e = WallpaperEngine::new();
    let one = launch_request("DP-1", "/w/a.mp4", false);
    e.launch_step(&one, LaunchEvent::Spawned { exited: None, pid: 1 });
    let all = launch_request("*", "/w/b.png", false);
    match e.launch_step(&all, LaunchEvent::Start) {
        LaunchAction::StopAll { sockets } => assert_eq!(sockets, vec!["/run/aura/DP-1.sock".to_string()]),
        _ => panic!("all screens stop every player"),
    }
    assert!(e.processes_keys().is_empty());
    match e.launch_step(&all, LaunchEvent::Begin { has_child: false, child_running: false, ipc_alive: false }) {
        LaunchAction::Spawn { args, .. } => {
            assert!(args[args.len() - 3].starts_with("image-display-duration=inf"));
            assert_eq!(args[args.len() - 2], "*");
        }
        _ => panic!("a new player"),
    }
    e.launch_step(&all, LaunchEvent::Spawned { exited: None, pid: 2 });
    assert_eq!(e.processes_keys(), vec!["*".to_string()]);
    let again = launch_request("HDMI-A-1", "/w/c.mp4", false);
    e.launch_step(&again, LaunchEvent::Start);
    assert!(e.processes_keys().is_empty());
}
