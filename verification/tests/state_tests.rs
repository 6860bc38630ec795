use aura::state::views::{card_meta_line, CardButton, LoadMoreButton};
use aura::config::Config;
use aura::engine::outputs::MonitorOutput;
use aura::i18n::Language;
use aura::online::models::{OnlineSource, OnlineWallpaperItem};
use aura::scanner::VideoItem;
use aura::state::updates::{activation_follow_up, autostart_at_start, check_updates_at_start, initial_selected_output, start_action, StartAction};
use aura::state::{AppState, AuraFlags, EngineOp, FollowUp, LibraryFilter, Page, UpdateStatus};
use aura::tray::TrayAction;

const ONLINE: &str = "/home/u/Pictures/Wallpapers/Aura";

fn video(path: &str, name: &str) -> VideoItem {
    VideoItem::new(path.to_string(), name.to_string(), "1 MB".to_string(), None, ONLINE)
}

fn state_with(videos: Vec<VideoItem>) -> AppState {
    AppState::new(Config::default(), Language::En, Vec::new(), "DP-1".to_string(), videos, false, false)
}

fn item(id: &str) -> OnlineWallpaperItem {
    OnlineWallpaperItem {
        id: id.to_string(),
        title: "T".to_string(),
        author_or_copyright: "A".to_string(),
        thumb_url: "https://x/t.jpg".to_string(),
        full_url: "https://x/f.jpg".to_string(),
        resolution: "4K".to_string(),
        source: OnlineSource::Wallhaven,
        date: None,
    }
}

fn applied(f: &Option<FollowUp>) -> Option<(String, String)> {
    match f {
        Some(FollowUp::ApplyWallpaper { video_path, output }) => Some((video_path.clone(), output.clone())),
        _ => None,
    }
}

#[test]
fn next_and_prev_walk_the_library() {
    let mut s = state_with(vec![video("/v/a.mp4", "a"), video("/v/b.mp4", "b"), video("/v/c.mp4", "c")]);
    let e = s.next_wallpaper();
    assert!(e.save_config);
    assert_eq!(s.config.seq_index, 1);
    assert_eq!(applied(&e.follow_up), Some(("/v/b.mp4".to_string(), "DP-1".to_string())));
    let e = s.prev_wallpaper();
    assert_eq!(s.config.seq_index, 0);
    assert_eq!(applied(&e.follow_up), Some(("/v/a.mp4".to_string(), "DP-1".to_string())));
    let e = s.prev_wallpaper();
    assert_eq!(s.config.seq_index, 2);
    assert_eq!(applied(&e.follow_up), Some(("/v/c.mp4".to_string(), "DP-1".to_string())));
    let mut empty = state_with(vec![]);
    let e = empty.next_wallpaper();
    assert!(e.follow_up.is_none() && !e.save_config);
}

#[test]
fn rotation_only_when_enabled() {
    let mut s = state_with(vec![video("/v/a.mp4", "a"), video("/v/b.mp4", "b")]);
    assert!(s.rotation_tick(7).follow_up.is_none());
    s.toggle_rotation(true);
    let e = s.rotation_tick(7);
    assert_eq!(s.config.seq_index, 1);
    assert!(e.save_config);
    s.select_rotation_order("sequential".to_string());
    s.rotation_tick(7);
    assert_eq!(s.config.seq_index, 0);
}

#[test]
fn game_and_battery_pauses_keep_their_owner() {
    let mut s = state_with(vec![]);
    let e = s.game_mode_changed(true);
    assert!(matches!(e.engine.as_slice(), [EngineOp::PauseAll]));
    assert!(s.is_paused && s.is_paused_by_smart);
    assert_eq!(s.status_timer, 5);
    let e = s.battery_state_changed(Some(false));
    assert!(e.engine.is_empty());
    assert!(s.is_paused);
    let e = s.game_mode_changed(false);
    assert!(matches!(e.engine.as_slice(), [EngineOp::ResumeAll]));
    assert!(!s.is_paused && !s.is_paused_by_smart);

    s.toggle_pause_on_battery(true);
    s.battery_state_changed(Some(true));
    assert!(s.is_paused && s.is_paused_by_battery);
    let e = s.game_mode_changed(false);
    assert!(e.engine.is_empty());
    assert!(s.is_paused);
    s.battery_state_changed(None);
    assert!(s.is_paused);
    s.battery_state_changed(Some(false));
    assert!(!s.is_paused && !s.is_paused_by_battery);
    assert_eq!(s.status_message.as_deref(), Some("AC power connected: Wallpaper resumed"));
}

#[test]
fn applying_and_stopping() {
    let mut s = state_with(vec![video("/v/a.mp4", "a")]);
    let req = s.apply_request("/v/a.mp4", "DP-1");
    assert_eq!(req.scaling, "fit");
    assert!(req.mute);
    let e = s.apply_succeeded("/v/a.mp4".to_string(), "DP-1".to_string());
    assert!(e.save_config);
    assert_eq!(e.tray, Some(("a.mp4".to_string(), false, true)));
    assert_eq!(e.theme, Some("/v/a.mp4".to_string()));
    assert_eq!(s.config.current.as_deref(), Some("/v/a.mp4"));
    assert_eq!(s.config.wallpapers.get("DP-1"), Some("/v/a.mp4".to_string()));
    assert_eq!(e.notice.unwrap().text, "Wallpaper applied on DP-1: 'a.mp4'");
    let e = s.toggle_pause_done(true);
    assert_eq!(e.tray, Some(("a".to_string(), true, true)));
    let e = s.stop_wallpaper(Some("DP-1".to_string()));
    assert!(matches!(e.engine.as_slice(), [EngineOp::StopOutput(o)] if o == "DP-1"));
    assert!(s.config.wallpapers.is_empty());
    assert_eq!(s.config.current.as_deref(), Some("/v/a.mp4"));
    assert!(!s.is_paused);
    let e = s.stop_wallpaper(None);
    assert!(matches!(e.engine.as_slice(), [EngineOp::StopAll]));
    assert!(s.config.current.is_none());
    assert_eq!(e.tray, Some((String::new(), false, false)));
}

#[test]
fn removing_from_library_stops_it_everywhere() {
    let mut s = state_with(vec![]);
    s.apply_succeeded("/v/a.mp4".to_string(), "DP-1".to_string());
    s.apply_succeeded("/v/a.mp4".to_string(), "HDMI-A-1".to_string());
    s.apply_succeeded("/v/b.mp4".to_string(), "eDP-1".to_string());
    s.file_selected("/v/a.mp4".to_string());
    let e = s.remove_from_library("/v/a.mp4");
    assert_eq!(e.engine.len(), 2);
    assert_eq!(s.config.wallpapers.len(), 1);
    assert_eq!(s.config.wallpapers.get("eDP-1"), Some("/v/b.mp4".to_string()));
    assert_eq!(s.config.current.as_deref(), Some("/v/b.mp4"));
    assert!(s.config.custom_videos.is_empty());
    assert_eq!(e.notice.unwrap().text, "Wallpaper removed from library");
}

#[test]
fn deleting_downloads_only_inside_the_folder() {
    let mut s = state_with(vec![]);
    let (e, may_delete) = s.delete_downloaded("/home/u/Pictures/Wallpapers/Aura/x.jpg", ONLINE);
    assert!(may_delete);
    assert!(e.rescan && !e.save_config);
    assert_eq!(e.notice.unwrap().text, "Wallpaper removed from library: x.jpg");
    let (_, may_delete) = s.delete_downloaded("/etc/passwd", ONLINE);
    assert!(!may_delete);
    assert!(matches!(s.delete_wallpaper("/home/u/Pictures/Wallpapers/Aura/x.jpg".to_string(), ONLINE), FollowUp::DeleteDownloadedWallpaper(_)));
    assert!(matches!(s.delete_wallpaper("/v/a.mp4".to_string(), ONLINE), FollowUp::RemoveWallpaperFromLibrary(_)));
}

#[test]
fn dropped_files_are_added_once() {
    let mut s = state_with(vec![]);
    let e = s.files_dropped(&vec!["/d/a.MP4".to_string(), "/d/notes.txt".to_string(), "/d/b.png".to_string(), "/d/a.MP4".to_string()]);
    assert_eq!(s.config.custom_videos, vec!["/d/a.MP4", "/d/b.png"]);
    assert!(e.save_config && e.rescan);
    assert_eq!(applied(&e.follow_up), Some(("/d/b.png".to_string(), "DP-1".to_string())));
    let e = s.files_dropped(&vec!["/d/a.MP4".to_string()]);
    assert!(!e.save_config && e.follow_up.is_none());
    let e = s.file_selected("/d/c.webm".to_string());
    assert!(matches!(e.follow_up, Some(FollowUp::ThumbnailThenApply { .. })));
    assert_eq!(s.status_message.as_deref(), Some("Video added: c.webm"));
}

#[test]
fn library_filters_and_counts() {
    let mut s = state_with(vec![
        video("/v/Ocean Waves.mp4", "Ocean Waves"),
        video("/home/u/Pictures/Wallpapers/Aura/sea.jpg", "sea"),
        video("/p/forest.png", "forest"),
    ]);
    assert_eq!(s.library_counts(), (3, 1, 2, 1));
    assert_eq!(s.listed_videos(), vec![0, 1, 2]);
    s.select_library_filter(LibraryFilter::Static);
    assert_eq!(s.listed_videos(), vec![1, 2]);
    s.search_changed("  SEA ".to_string());
    assert_eq!(s.listed_videos(), vec![1]);
    s.select_library_filter(LibraryFilter::Live);
    assert!(s.listed_videos().is_empty());
    s.select_library_filter(LibraryFilter::Downloaded);
    s.search_changed(String::new());
    assert_eq!(s.listed_videos(), vec![1]);
    assert_eq!(s.videos_missing_thumbs().len(), 3);
    s.thumbnail_generated("/p/forest.png", "/t/forest.jpg".to_string());
    assert_eq!(s.videos[2].thumb_path.as_deref(), Some("/t/forest.jpg"));
    assert_eq!(s.videos_missing_thumbs().len(), 2);
}

#[test]
fn settings_are_saved_and_shown() {
    let mut s = state_with(vec![]);
    let e = s.select_output("HDMI-A-1".to_string());
    assert!(e.save_config);
    assert_eq!(s.config.output, "HDMI-A-1");
    assert_eq!(s.selected_output, "HDMI-A-1");
    assert_eq!(e.notice.unwrap().text, "Pantalla seleccionada: HDMI-A-1");
    s.apply_succeeded("/v/a.mp4".to_string(), "HDMI-A-1".to_string());
    let e = s.select_scaling("HDMI-A-1".to_string(), "fill".to_string());
    assert_eq!(e.wallpapers.len(), 1);
    assert_eq!(e.wallpapers[0].scaling, "fill");
    assert_eq!(s.status_message.as_deref(), Some("Modo de escala para HDMI-A-1 cambiado a 'fill'"));
    let e = s.toggle_mute(false);
    assert_eq!(e.wallpapers.len(), 1);
    assert!(!e.wallpapers[0].mute);
    let e = s.change_volume(30);
    assert_eq!(e.wallpapers[0].volume, 30);
    let e = s.select_interval(15);
    assert_eq!(e.notice.unwrap().text, "Intervalo de rotación: 15 min");
    let e = s.set_language(Language::Es);
    assert_eq!(s.config.language, "es");
    assert_eq!(e.notice.unwrap().text, "Idioma cambiado a Español");
    let e = s.toggle_autostart(true);
    assert_eq!(e.autostart, Some(true));
    assert_eq!(s.status_message.as_deref(), Some("Inicio automático activado"));
    assert_eq!(s.status_timer, 5);
    for _ in 0..4 {
        s.tick_second();
    }
    assert!(s.status_message.is_some());
    s.tick_second();
    assert!(s.status_message.is_none());
    assert_eq!(s.status_timer, 0);
}

#[test]
fn explore_pages_merge_without_repeats() {
    let mut s = state_with(vec![]);
    let e = s.select_page(Page::Explore);
    assert!(matches!(e.follow_up, Some(FollowUp::FetchOnlineWallpapers(OnlineSource::Bing))));
    let req = s.fetch_online(OnlineSource::Wallhaven);
    assert!(s.explore_loading);
    assert_eq!(req.page, 1);
    assert_eq!(req.category, "110");
    assert!(req.search.is_none());
    let r = s.online_fetched(Ok((OnlineSource::Wallhaven, vec![item("a"), item("b")])));
    assert_eq!(r, Some(OnlineSource::Wallhaven));
    assert!(!s.explore_loading);
    s.select_explore_source(OnlineSource::Wallhaven);
    s.wallhaven_search_changed("  ".to_string());
    let more = s.load_more().expect("a next page");
    assert_eq!(more.page, 2);
    assert!(more.search.is_none());
    assert!(s.load_more().is_none());
    let added = s.more_fetched(Ok((OnlineSource::Wallhaven, vec![item("b"), item("c"), item("c")])));
    assert_eq!(added, 1);
    let ids: Vec<&str> = s.wallhaven_wallpapers.iter().map(|i| i.id.as_str()).collect();
    assert_eq!(ids, vec!["a", "b", "c"]);
    let next = s.load_more().expect("a third page");
    assert_eq!(next.page, 3);
    assert_eq!(s.wallhaven_page, 3);
    s.more_fetched(Err((OnlineSource::Wallhaven, "offline".to_string())));
    assert_eq!(s.status_message.as_deref(), Some("Error: offline"));
    assert_eq!(s.wallhaven_page, 2);
    let retry = s.load_more().expect("the failed page again");
    assert_eq!(retry.page, 3);
    s.more_fetched(Ok((OnlineSource::Wallhaven, vec![])));
    assert!(s.select_wallhaven_sorting("toplist".to_string()).is_none());
    assert!(s.select_wallhaven_sorting("hot".to_string()).is_some());
    assert!(s.wallhaven_wallpapers.is_empty());
    assert_eq!(s.wallhaven_page, 1);
}

#[test]
fn downloads_are_tracked() {
    let mut s = state_with(vec![]);
    let it = item("x9k");
    let req = s.download_online(&it, true, ONLINE, "/c/thumbs");
    assert_eq!(req.dest, format!("{}/wallhaven_x9k.jpg", ONLINE));
    assert_eq!(req.thumb_src, "/c/thumbs/wallhaven_x9k.jpg");
    assert_eq!(s.downloading_online_ids, vec!["x9k"]);
    let e = s.online_downloaded("x9k", "/w/wallhaven_x9k.jpg");
    assert!(s.downloading_online_ids.is_empty());
    let n = e.notice.unwrap();
    assert_eq!(n.text, "Wallpaper downloaded successfully: wallhaven_x9k.jpg");
    assert!(matches!(n.action, Some((_, FollowUp::OpenWallpapersFolder))));
    let (needs, follow) = s.after_download_scan("/w/wallhaven_x9k.jpg".to_string(), true);
    assert!(!needs);
    assert!(matches!(follow, Some(FollowUp::ApplyDownloadedOnlineWallpaper(_))));
    s.download_failed("zzz", "timeout");
    assert_eq!(s.status_message.as_deref(), Some("Could not connect to online catalog: timeout"));
}

#[test]
fn update_checks() {
    let mut s = state_with(vec![]);
    s.check_for_updates();
    assert!(matches!(s.update_status, UpdateStatus::Checking));
    let n = s.update_check_result(Ok(("v9.0.0".to_string(), "notes".to_string(), Some("https://dl".to_string()))), false).unwrap();
    assert_eq!(n.text, "🚀 New version available: v9.0.0");
    assert!(matches!(n.action, Some((ref l, FollowUp::PerformGuiUpdate { .. })) if l == "Update"));
    assert!(matches!(s.update_status, UpdateStatus::Available { .. }));
    assert!(s.update_check_result(Ok(("v1.3.3".to_string(), String::new(), None)), false).is_none());
    assert!(matches!(s.update_status, UpdateStatus::UpToDate));
    let n = s.update_check_result(Ok(("1.0.0".to_string(), String::new(), None)), true).unwrap();
    assert_eq!(n.text, "Aura is up to date.");
    let n = s.update_check_result(Err("rate limited".to_string()), true).unwrap();
    assert_eq!(n.text, "Error: rate limited");
    let n = s.update_check_result(Ok(("v2.0.0".to_string(), String::new(), None)), false).unwrap();
    assert!(matches!(n.action, Some((_, FollowUp::OpenGitHub))));
    let n = s.gui_update_result(Ok("v2.0.0".to_string()));
    assert_eq!(n.text, "🎉 ¡Aura actualizada a v2.0.0!");
    let n = s.gui_update_result(Err("disk full".to_string()));
    assert_eq!(n.text, "Error al actualizar: disk full");
    assert_eq!(s.perform_gui_update().text, "Downloading and installing update...");
}

#[test]
fn start_and_activation() {
    let outs = vec![MonitorOutput {
        name: "eDP-1".to_string(),
        description: "eDP-1".to_string(),
        resolution: "1920x1080".to_string(),
        width: 1920,
        height: 1080,
        is_primary: true,
    }];
    assert_eq!(initial_selected_output("", &outs), "eDP-1");
    assert_eq!(initial_selected_output("DP-2", &outs), "DP-2");
    assert_eq!(initial_selected_output("", &vec![]), "*");
    assert_eq!(autostart_at_start(true, false), (true, true));
    assert_eq!(autostart_at_start(false, true), (true, false));
    assert!(check_updates_at_start(true, false));
    assert!(!check_updates_at_start(true, true));
    let flags = AuraFlags { hidden: true, action: Some("apply".to_string()), args: vec!["/v/a.mp4".to_string()] };
    assert!(matches!(start_action(&flags, "DP-1"), StartAction::Follow(FollowUp::ApplyWallpaper { .. })));
    let flags = AuraFlags { hidden: true, action: Some("stop".to_string()), args: vec![] };
    assert!(matches!(start_action(&flags, "DP-1"), StartAction::StopAndExit));
    assert_eq!(flags.action(), Some(&"stop".to_string()));
    assert!(AuraFlags::default().args().is_empty());
    assert!(matches!(activation_follow_up(Some("stop"), &vec![], "DP-1"), Some(FollowUp::StopWallpaper(None))));
    assert!(matches!(activation_follow_up(None, &vec![], "DP-1"), Some(FollowUp::ShowMainWindow)));
    assert!(activation_follow_up(Some("dance"), &vec![], "DP-1").is_none());
    assert!(matches!(aura::state::playback::tray_follow_up(TrayAction::StopWallpaper), FollowUp::StopWallpaper(None)));
}

#[test]
fn window_and_outputs() {
    let mut s = state_with(vec![]);
    assert!(s.window_close_requested());
    assert!(!s.is_window_open);
    assert!(s.show_main_window(true));
    assert!(s.is_window_open);
    assert!(!s.show_main_window(true));
    let outs = aura::engine::outputs::detect_outputs(None, Some("DP-1 connected\n"));
    assert!(s.hotplug(outs).0);
    assert_eq!(s.status_message.as_deref(), Some("Display topology updated (1 displays)"));
    let again = aura::engine::outputs::detect_outputs(None, Some("DP-1 connected\n"));
    assert!(!s.hotplug(again).0);
}

#[test]
fn stopping_an_output_undoes_its_apply() {
    let mut s = state_with(vec![video("/v/a.mp4", "a")]);
    s.config.wallpapers.insert("HDMI-A-1".to_string(), "/v/b.mp4".to_string());
    let _ = s.apply_succeeded("/v/a.mp4".to_string(), "DP-1".to_string());
    assert_eq!(s.config.wallpapers.len(), 2);
    let _ = s.stop_wallpaper(Some("DP-1".to_string()));
    assert_eq!(s.config.wallpapers.len(), 1);
    assert_eq!(s.config.wallpapers.get("HDMI-A-1"), Some("/v/b.mp4".to_string()));
    assert_eq!(s.config.wallpapers.get("DP-1"), None);
}

#[test]
fn folder_list_is_stable_under_repeated_loading() {
    let mut c = Config::default();
    c.dirs = vec!["/v".to_string(), "/p".to_string()];
    c.ensure_online_dir("/o");
    assert_eq!(c.dirs, vec!["/o".to_string(), "/v".to_string(), "/p".to_string()]);
    c.ensure_online_dir("/o");
    assert_eq!(c.dirs, vec!["/o".to_string(), "/v".to_string(), "/p".to_string()]);
    let extra = vec!["/p".to_string(), "/d".to_string(), "/d".to_string()];
    c.merge_dirs(&extra);
    assert_eq!(c.dirs, vec!["/o".to_string(), "/v".to_string(), "/p".to_string(), "/d".to_string()]);
    c.merge_dirs(&extra);
    assert_eq!(c.dirs, vec!["/o".to_string(), "/v".to_string(), "/p".to_string(), "/d".to_string()]);
}

#[test]
fn unplugging_a_screen_resets_the_selection_and_stops_its_player() {
    let mut s = state_with(vec![]);
    s.config.wallpapers.insert("DP-1".to_string(), "/v/a.mp4".to_string());
    s.config.wallpapers.insert("HDMI-A-1".to_string(), "/v/b.mp4".to_string());
    s.config.wallpapers.insert("*".to_string(), "/v/c.mp4".to_string());
    let both = aura::engine::outputs::detect_outputs(None, Some("DP-1 connected\nHDMI-A-1 connected\n"));
    assert!(s.hotplug(both).0);
    s.selected_output = "HDMI-A-1".to_string();
    let one = aura::engine::outputs::detect_outputs(None, Some("DP-1 connected\n"));
    let (changed, e) = s.hotplug(one);
    assert!(changed);
    assert_eq!(s.selected_output, "DP-1");
    assert!(matches!(e.engine.as_slice(), [EngineOp::StopOutput(o)] if o == "HDMI-A-1"));
    assert!(s.config.wallpapers.contains_key("HDMI-A-1"));
    let none = aura::engine::outputs::detect_outputs(None, Some(""));
    let (changed, e) = s.hotplug(none);
    assert!(changed);
    assert_eq!(s.selected_output, "*");
    assert_eq!(e.engine.len(), 2);
}

#[test]
fn catalogue_cards() {
    let mut it = item("w1");
    assert_eq!(card_meta_line(&it), "4K • A");
    it.date = Some("2026-09-01".to_string());
    assert_eq!(card_meta_line(&it), "4K • 2026-09-01");
    it.date = None;
    it.author_or_copyright = String::new();
    assert_eq!(card_meta_line(&it), "4K");

    let mut s = state_with(vec![]);
    assert!(matches!(s.card_button("w1", None), CardButton::Download));
    assert!(matches!(s.card_button("w1", Some("/d/w1.jpg".to_string())), CardButton::Apply(p) if p == "/d/w1.jpg"));
    s.config.wallpapers.insert("DP-1".to_string(), "/d/w1.jpg".to_string());
    assert!(matches!(s.card_button("w1", Some("/d/w1.jpg".to_string())), CardButton::Active));
    s.downloading_online_ids.push("w1".to_string());
    assert!(matches!(s.card_button("w1", Some("/d/w1.jpg".to_string())), CardButton::Downloading));

    s.select_explore_source(OnlineSource::Wallhaven);
    assert!(matches!(s.load_more_button(), LoadMoreButton::Ready));
    s.explore_loading_more = true;
    assert!(matches!(s.load_more_button(), LoadMoreButton::Loading));
    s.select_explore_source(OnlineSource::Minimalistic);
    assert!(matches!(s.load_more_button(), LoadMoreButton::Hidden));
}
