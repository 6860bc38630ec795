use aura::cli::{file_target, is_pure_cli, parse_flags, resolve_flags, resolve_path, CliError};
use aura::online::updater::is_newer_version;
use aura::playlist::{next_index, prev_index};

fn args(v: &[&str]) -> Vec<String> {
    v.iter().map(|s| s.to_string()).collect()
}

#[test]
fn test_is_pure_cli() {
    assert_eq!(is_pure_cli(&["aura".into()]), false);
    assert_eq!(is_pure_cli(&["aura".into(), "gui".into()]), false);
    assert_eq!(is_pure_cli(&["aura".into(), "--hidden".into()]), false);
    assert_eq!(is_pure_cli(&["aura".into(), "next".into()]), false);
    assert_eq!(is_pure_cli(&["aura".into(), "help".into()]), true);
    assert_eq!(is_pure_cli(&["aura".into(), "--help".into()]), true);
    assert_eq!(is_pure_cli(&["aura".into(), "-h".into()]), true);
    assert_eq!(is_pure_cli(&["aura".into(), "version".into()]), true);
    assert_eq!(is_pure_cli(&["aura".into(), "-v".into()]), true);
    assert_eq!(is_pure_cli(&["aura".into(), "status".into()]), true);
    assert_eq!(is_pure_cli(&["aura".into(), "check-update".into()]), true);
    assert_eq!(is_pure_cli(&["aura".into(), "update".into()]), true);
}

#[test]
fn test_parse_flags() {
    let (hidden, action, args) = parse_flags(&["aura".into()]);
    assert_eq!(hidden, false);
    assert_eq!(action, None);
    assert!(args.is_empty());

    let (hidden, action, _) = parse_flags(&["aura".into(), "--hidden".into()]);
    assert_eq!(hidden, true);
    assert_eq!(action, None);

    let (hidden, action, _) = parse_flags(&["aura".into(), "next".into()]);
    assert_eq!(hidden, true);
    assert_eq!(action, Some("next".into()));

    let (hidden, action, _) = parse_flags(&["aura".into(), "toggle-pause".into()]);
    assert_eq!(hidden, true);
    assert_eq!(action, Some("toggle-pause".into()));

    let (hidden, action, _) = parse_flags(&["aura".into(), "stop".into()]);
    assert_eq!(hidden, true);
    assert_eq!(action, Some("stop".into()));
}

#[test]
fn cli_test_is_newer_version() {
    assert_eq!(is_newer_version("1.1.1", "1.1.0"), true);
    assert_eq!(is_newer_version("v1.1.1", "v1.1.0"), true);
    assert_eq!(is_newer_version("1.2.0", "1.1.9"), true);
    assert_eq!(is_newer_version("2.0.0", "1.99.99"), true);
    assert_eq!(is_newer_version("1.1.0", "1.1.1"), false);
    assert_eq!(is_newer_version("1.1.0", "1.1.0"), false);
    assert_eq!(is_newer_version("v1.1.0", "v1.1.0"), false);
}

#[test]
fn parse_flags_gui_and_pause_alias() {
    let (hidden, action, rest) = parse_flags(&args(&["aura", "gui"]));
    assert!(!hidden);
    assert_eq!(action, None);
    assert!(rest.is_empty());
    let (hidden, action, _) = parse_flags(&args(&["aura", "pause"]));
    assert!(hidden);
    assert_eq!(action, Some("toggle-pause".to_string()));
    let (hidden, action, _) = parse_flags(&args(&["aura", "-d"]));
    assert!(hidden);
    assert_eq!(action, None);
    let (_, action, _) = parse_flags(&args(&["aura", "prev"]));
    assert_eq!(action, Some("prev".to_string()));
}

#[test]
fn file_target_of_apply_and_of_a_bare_file() {
    assert_eq!(file_target(&args(&["aura", "apply", "clip.mp4"]), "/home/u"), Some("/home/u/clip.mp4".to_string()));
    assert_eq!(file_target(&args(&["aura", "apply", "/abs/clip.mp4"]), "/home/u"), Some("/abs/clip.mp4".to_string()));
    assert_eq!(file_target(&args(&["aura", "clip.mp4"]), "/home/u/"), Some("/home/u/clip.mp4".to_string()));
    assert_eq!(file_target(&args(&["aura", "apply"]), "/home/u"), None);
    assert_eq!(file_target(&args(&["aura", "next"]), "/home/u"), None);
    assert_eq!(file_target(&args(&["aura"]), "/home/u"), None);
}

#[test]
fn resolve_flags_applies_existing_files() {
    let r = resolve_flags(&args(&["aura", "apply", "clip.mp4"]), "/home/u", true, true);
    match r {
        Ok((hidden, action, rest)) => {
            assert!(hidden);
            assert_eq!(action, Some("apply".to_string()));
            assert_eq!(rest, vec!["/home/u/clip.mp4".to_string()]);
        }
        Err(_) => panic!("apply of an existing file must succeed"),
    }
    let r = resolve_flags(&args(&["aura", "/w/a.png"]), "/home/u", true, true);
    match r {
        Ok((_, action, rest)) => {
            assert_eq!(action, Some("apply".to_string()));
            assert_eq!(rest, vec!["/w/a.png".to_string()]);
        }
        Err(_) => panic!("a bare existing file is applied"),
    }
}

#[test]
fn resolve_flags_errors() {
    match resolve_flags(&args(&["aura", "apply", "gone.mp4"]), "/home/u", false, false) {
        Err(e) => assert_eq!(e.message(), "Error: El archivo '/home/u/gone.mp4' no existe."),
        Ok(_) => panic!("missing file"),
    }
    match resolve_flags(&args(&["aura", "apply"]), "/home/u", false, false) {
        Err(CliError::ApplyUsage) => {}
        _ => panic!("usage error"),
    }
    match resolve_flags(&args(&["aura", "bogus"]), "/home/u", false, false) {
        Err(e) => assert_eq!(e.message(), "Comando desconocido: 'bogus'. Ejecuta 'aura help' para ver opciones."),
        Ok(_) => panic!("unknown command"),
    }
    assert_eq!(CliError::ApplyUsage.message(), "Uso: aura apply <ruta_al_video_o_imagen>");
    match resolve_flags(&args(&["aura", "stop"]), "/", false, false) {
        Ok((hidden, action, rest)) => {
            assert!(hidden);
            assert_eq!(action, Some("stop".to_string()));
            assert!(rest.is_empty());
        }
        Err(_) => panic!("stop needs no file"),
    }
}

#[test]
fn resolve_path_joins_relative_paths() {
    assert_eq!(resolve_path("a/b.mp4", "/home/u"), "/home/u/a/b.mp4");
    assert_eq!(resolve_path("/x/y.mp4", "/home/u"), "/x/y.mp4");
    assert_eq!(resolve_path("a.mp4", ""), "a.mp4");
}

#[test]
fn playlist_steps_wrap_around() {
    assert_eq!(next_index(false, 0, 3, 99), 1);
    assert_eq!(next_index(false, 2, 3, 99), 0);
    assert_eq!(next_index(false, 7, 3, 99), 2);
    assert_eq!(next_index(false, usize::MAX, 2, 0), 0);
    assert_eq!(next_index(true, 0, 3, 10), 1);
    assert_eq!(prev_index(0, 3), 2);
    assert_eq!(prev_index(2, 3), 1);
    for i in 0..5 {
        assert_eq!(prev_index(next_index(false, i, 5, 0), 5), i);
        assert_eq!(next_index(false, prev_index(i, 5), 5, 0), i);
    }
}

#[test]
fn sequential_rotation_visits_every_wallpaper() {
    let len = 4;
    let start = 2;
    let mut seen = Vec::new();
    let mut i = start;
    for _ in 0..len {
        i = next_index(false, i, len, 0);
        seen.push(i);
    }
    assert_eq!(seen, vec![3, 0, 1, 2]);
    assert_eq!(i, start);
}

#[test]
fn apply_refuses_folders_and_unsupported_files() {
    match resolve_flags(&args(&["aura", "apply", "Videos"]), "/home/u", true, false) {
        Err(CliError::UnsupportedFile(p)) => assert_eq!(p, "/home/u/Videos"),
        _ => panic!("a folder is no wallpaper"),
    }
    match resolve_flags(&args(&["aura", "apply", "notes.txt"]), "/home/u", true, true) {
        Err(e) => assert_eq!(e.message(), "Error: '/home/u/notes.txt' no es un archivo de video o imagen compatible."),
        Ok(_) => panic!("a text file is no wallpaper"),
    }
    match resolve_flags(&args(&["aura", "notes.txt"]), "/home/u", true, true) {
        Err(CliError::UnsupportedFile(p)) => assert_eq!(p, "/home/u/notes.txt"),
        _ => panic!("a bare text file is refused"),
    }
    match resolve_flags(&args(&["aura", "Videos"]), "/home/u", true, false) {
        Err(CliError::UnknownCommand(c)) => assert_eq!(c, "Videos"),
        _ => panic!("a bare folder is no command"),
    }
    match resolve_flags(&args(&["aura", "apply", "Clip.MKV"]), "/home/u", true, true) {
        Ok((_, action, rest)) => {
            assert_eq!(action, Some("apply".to_string()));
            assert_eq!(rest, vec!["/home/u/Clip.MKV".to_string()]);
        }
        Err(_) => panic!("upper-case extensions are supported"),
    }
}
