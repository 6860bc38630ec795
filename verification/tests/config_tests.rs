use aura::config::{default_language, default_library_dirs, library_candidates, xdg_dir_from_output, Config, LibraryEnv};
use std::path::Path;

#[test]
fn test_default_config() {
    let cfg = Config::default();
    assert_eq!(cfg.order, "random");
    assert_eq!(cfg.interval, 30);
    assert!(cfg.auto_theme);
    assert!(cfg.auto_dark);
    assert!(cfg.mute);
    assert!(cfg.smart_pause);
    assert!(cfg.keep_running_on_close);
    assert_eq!(cfg.hwdec, "auto-safe");
    assert_eq!(cfg.output, "*");
    assert!(!cfg.dirs.is_empty());
}

#[test]
fn test_config_paths() {
    let dir = Config::config_dir(None, Some("/home/test"));
    let file = Config::config_file(None, Some("/home/test"));
    assert!(Path::new(&dir).ends_with(".config/aura"));
    assert!(Path::new(&file).ends_with(".config/aura/config.json"));
}

#[test]
fn config_dir_prefers_xdg_config_home() {
    assert_eq!(Config::config_dir(Some("/cfg"), Some("/home/test")), "/cfg/aura");
    assert_eq!(Config::config_dir(Some(""), Some("/home/test")), "/home/test/.config/aura");
    assert_eq!(Config::config_dir(None, None), "./.config/aura");
    assert_eq!(Config::config_file(Some("/cfg/"), None), "/cfg/aura/config.json");
}

#[test]
fn default_config_without_environment() {
    let cfg = Config::default();
    assert_eq!(
        cfg.dirs,
        vec!["/tmp/Wallpapers/Aura", "/tmp/Videos", "/tmp/Wallpapers", "/tmp/Downloads"]
    );
    assert_eq!(cfg.language, "en");
    assert_eq!(cfg.volume, 100);
    assert!(!cfg.rotation);
    assert_eq!(cfg.seq_index, 0);
    assert!(cfg.current.is_none());
    assert!(cfg.wallpapers.is_empty());
    assert!(cfg.scaling.is_empty());
}

#[test]
fn library_dirs_keep_order_and_skip_repeats() {
    let env = LibraryEnv {
        home: "/home/u".to_string(),
        online_dir: "/home/u/Pictures/Wallpapers/Aura".to_string(),
        xdg_videos: Some("/home/u/Videos".to_string()),
        xdg_pictures: Some("/home/u/Pictures".to_string()),
        pictures_wallpapers_exists: true,
        xdg_download: None,
        candidate_exists: vec![true, true, false, false, true, false, true, false, false],
    };
    assert_eq!(
        default_library_dirs(&env),
        vec![
            "/home/u/Pictures/Wallpapers/Aura",
            "/home/u/Videos",
            "/home/u/Pictures",
            "/home/u/Pictures/Wallpapers",
            "/home/u/Wallpapers/Aura",
            "/home/u/Wallpapers",
        ]
    );
}

#[test]
fn library_candidates_are_fixed() {
    let c = library_candidates("/h");
    assert_eq!(c.len(), 9);
    assert_eq!(c[0], "/h/Wallpapers/Aura");
    assert_eq!(c[3], "/h/Vídeos");
    assert_eq!(c[8], "/h/Downloads");
}

#[test]
fn online_dir_goes_first_once() {
    let mut cfg = Config::with_environment(vec!["/a".to_string()], "es".to_string());
    cfg.ensure_online_dir("/online");
    assert_eq!(cfg.dirs, vec!["/online", "/a"]);
    cfg.ensure_online_dir("/online");
    assert_eq!(cfg.dirs, vec!["/online", "/a"]);
    cfg.merge_dirs(&vec!["/a".to_string(), "/b".to_string(), "/b".to_string()]);
    assert_eq!(cfg.dirs, vec!["/online", "/a", "/b"]);
}

#[test]
fn xdg_output_is_trimmed() {
    assert_eq!(xdg_dir_from_output(true, "  /home/u/Videos\n"), Some("/home/u/Videos".to_string()));
    assert_eq!(xdg_dir_from_output(true, " \n"), None);
    assert_eq!(xdg_dir_from_output(false, "/home/u/Videos"), None);
}

#[test]
fn default_language_reads_the_locale() {
    assert_eq!(default_language(Some("es_ES.UTF-8"), None), "es");
    assert_eq!(default_language(None, Some("ES_MX")), "es");
    assert_eq!(default_language(Some("en_US.UTF-8"), Some("es_ES")), "en");
    assert_eq!(default_language(None, None), "en");
}

#[test]
fn config_maps_get_insert_remove() {
    let mut cfg = Config::default();
    assert_eq!(cfg.wallpapers.insert("DP-1".to_string(), "/v.mp4".to_string()), None);
    assert_eq!(cfg.wallpapers.get("DP-1"), Some("/v.mp4".to_string()));
    assert_eq!(cfg.wallpapers.insert("DP-1".to_string(), "/w.mp4".to_string()), Some("/v.mp4".to_string()));
    assert_eq!(cfg.wallpapers.len(), 1);
    assert_eq!(cfg.wallpapers.get_or("HDMI-A-1", "fit"), "fit");
    assert_eq!(cfg.wallpapers.remove("DP-1"), Some("/w.mp4".to_string()));
    assert!(cfg.wallpapers.is_empty());
}

#[test]
fn settings_are_written_beside_the_file_first() {
    assert_eq!(
        Config::save_temp_file("/home/u/.config/aura/config.json", 4242),
        "/home/u/.config/aura/config.json.tmp.4242"
    );
    assert_eq!(Config::save_temp_file("c.json", 0), "c.json.tmp.0");
}
