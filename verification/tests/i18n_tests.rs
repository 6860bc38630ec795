use aura::i18n::Language;

#[test]
fn test_language_from_code() {
    assert_eq!(Language::from_code("es"), Language::Es);
    assert_eq!(Language::from_code("ES"), Language::Es);
    assert_eq!(Language::from_code("spanish"), Language::Es);
    assert_eq!(Language::from_code("español"), Language::Es);
    assert_eq!(Language::from_code("en"), Language::En);
    assert_eq!(Language::from_code("EN"), Language::En);
    assert_eq!(Language::from_code("english"), Language::En);
    assert_eq!(Language::from_code("fr"), Language::En);
    assert_eq!(Language::from_code(""), Language::En);
}

#[test]
fn test_language_code() {
    assert_eq!(Language::Es.code(), "es");
    assert_eq!(Language::En.code(), "en");
}

#[test]
fn test_translations_non_empty() {
    for lang in &[Language::Es, Language::En] {
        assert!(!lang.nav_library().is_empty());
        assert!(!lang.nav_explore().is_empty());
        assert!(!lang.nav_monitors().is_empty());
        assert!(!lang.nav_settings().is_empty());
        assert!(!lang.nav_about().is_empty());
        assert!(!lang.header_add_video().is_empty());
        assert!(!lang.header_add_folder().is_empty());
        assert!(!lang.library_search_placeholder().is_empty());
        assert!(!lang.library_empty_title().is_empty());
        assert!(!lang.settings_title().is_empty());
        assert!(!lang.about_tagline().is_empty());
        assert!(!lang.tray_open().is_empty());
        assert!(!lang.tray_quit().is_empty());
        assert!(!lang.status_paused().is_empty());
        assert!(!lang.status_resumed().is_empty());
        assert!(!lang.explore_btn_load_more().is_empty());
        assert!(!lang.explore_btn_loading_more().is_empty());
        assert!(!lang.explore_search_placeholder().is_empty());
        assert!(!lang.explore_cat_all().is_empty());
        assert!(!lang.explore_cat_anime().is_empty());
        assert!(!lang.explore_cat_general().is_empty());
        assert!(!lang.explore_sort_top().is_empty());
        assert!(!lang.explore_sort_hot().is_empty());
        assert!(!lang.explore_sort_random().is_empty());
        assert!(!lang.library_filter_all().is_empty());
        assert!(!lang.library_filter_live().is_empty());
        assert!(!lang.library_filter_static().is_empty());
        assert!(!lang.library_filter_downloaded().is_empty());
        assert!(!lang.library_filter_empty().is_empty());
        assert!(!lang.library_btn_delete().is_empty());
        assert!(!lang.library_deleted_toast().is_empty());
        assert!(!lang.explore_res_all().is_empty());
        assert!(!lang.explore_res_4k().is_empty());
        assert!(!lang.explore_res_2k().is_empty());
        assert!(!lang.explore_res_ultrawide().is_empty());
        assert!(!lang.library_btn_remove_custom().is_empty());
        assert!(!lang.library_btn_delete_download().is_empty());
        assert!(!lang.library_removed_toast().is_empty());
        assert!(!lang.library_target_output_label().is_empty());
        assert!(!lang.monitors_apply_to_this().is_empty());
        assert!(!lang.monitors_all_displays().is_empty());
        assert!(!lang.settings_rotation_title().is_empty());
        assert!(!lang.settings_rotation_desc().is_empty());
        assert!(!lang.settings_rotation_toggle().is_empty());
        assert!(!lang.settings_interval_label().is_empty());
        assert!(!lang.settings_order_label().is_empty());
        assert!(!lang.settings_order_random().is_empty());
        assert!(!lang.settings_order_seq().is_empty());
        assert!(!lang.settings_hwdec_title().is_empty());
        assert!(!lang.settings_hwdec_desc().is_empty());
        assert!(!lang.settings_battery_title().is_empty());
        assert!(!lang.settings_battery_desc().is_empty());
        assert!(!lang.status_battery_paused().is_empty());
        assert!(!lang.status_battery_resumed().is_empty());
        assert!(!lang.bar_volume().is_empty());
    }
}

#[test]
fn test_dynamic_formatting() {
    assert_eq!(Language::Es.header_wallpapers_count(5), "(5 fondos)");
    assert_eq!(Language::En.header_wallpapers_count(5), "(5 wallpapers)");
    assert!(Language::Es.status_applied("DP-1", "ocean.mp4").contains("DP-1"));
    assert!(Language::En.status_applied("DP-1", "ocean.mp4").contains("ocean.mp4"));
}

#[test]
fn language_code_round_trip() {
    for lang in [Language::Es, Language::En] {
        assert_eq!(Language::from_code(lang.code()), lang);
    }
}

#[test]
fn exact_formatted_texts() {
    assert_eq!(Language::En.status_applied("DP-1", "ocean.mp4"), "Wallpaper applied on DP-1: 'ocean.mp4'");
    assert_eq!(Language::Es.status_topology_updated(2), "Topología de pantallas actualizada (2 monitores)");
    assert_eq!(Language::En.tray_tooltip_playing("Sea"), "Playing: Sea");
    assert_eq!(Language::Es.header_wallpapers_count(0), "(0 fondos)");
}
