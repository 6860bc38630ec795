use aura::config::Config;
use aura::i18n::Language;
use aura::state::views::{screen_card_title, switcher_item, switcher_slots};
use aura::state::{nav_entries, nav_position, AppState, Page, Tick};
use aura::theme::{accent_description, builder_accent, color_hex, dark_mode_text, on_colors, theme_dir, theme_variants, theme_wanted};

#[test]
fn timers_follow_the_settings() {
    let s = AppState::new(Config::default(), Language::En, Vec::new(), "*".to_string(), Vec::new(), false, false);
    assert_eq!(s.timers(), vec![(Tick::Hotplug, 5)]);

    let mut c = Config::default();
    c.rotation = true;
    c.interval = 2;
    c.pause_on_battery = true;
    c.wallpapers.insert("DP-1".to_string(), "/v/a.mp4".to_string());
    let mut s = AppState::new(c, Language::En, Vec::new(), "*".to_string(), Vec::new(), false, false);
    s.status_timer = 3;
    assert_eq!(
        s.timers(),
        vec![(Tick::Second, 1), (Tick::Rotation, 120), (Tick::Hotplug, 5), (Tick::SmartPause, 3), (Tick::Battery, 4)]
    );
    s.config.rotation = false;
    s.config.smart_pause = false;
    s.status_timer = 0;
    assert_eq!(s.timers(), vec![(Tick::Hotplug, 5), (Tick::Battery, 4)]);
}

#[test]
fn navigation_entries() {
    let en = nav_entries(Language::En);
    let labels: Vec<&str> = en.iter().map(|e| e.label).collect();
    assert_eq!(labels, vec!["Library", "Explore", "Displays", "Settings", "About"]);
    assert_eq!(en[1].icon, "web-browser-symbolic");
    assert_eq!(en[4].page, Page::About);
    let es = nav_entries(Language::Es);
    assert_eq!(es[0].label, "Biblioteca");
    assert_eq!(es[4].label, "Acerca de");
    assert_eq!(nav_position(Page::Library), 0);
    assert_eq!(nav_position(Page::Settings), 3);
    assert_eq!(en[nav_position(Page::Monitors)].page, Page::Monitors);
}

#[test]
fn theme_texts() {
    assert_eq!(color_hex(255, 128, 0, "FF"), "#FF8000FF");
    assert_eq!(color_hex(10, 11, 12, "80"), "#0A0B0C80");
    assert_eq!(on_colors(true), ("#000000FF", "#333333FF"));
    assert_eq!(on_colors(false), ("#FFFFFFFF", "#AAAAAAFF"));
    assert_eq!(builder_accent("#FF8000FF"), "Some(\"#FF8000FF\")\n");
    let text = accent_description("#B", "#H", "#P", "#D", "#V", "#O", "#N");
    assert_eq!(
        text,
        "(\n    base: \"#B\",\n    hover: \"#H\",\n    pressed: \"#P\",\n    selected: \"#H\",\n    selected_text: \"#B\",\n    focus: \"#B\",\n    divider: \"#V\",\n    on: \"#O\",\n    disabled: \"#B\",\n    on_disabled: \"#N\",\n    border: \"#B\",\n    disabled_border: \"#D\",\n)\n"
    );
    assert_eq!(theme_variants(), vec![("Dark", "#000000FF"), ("Light", "#FFFFFFFF")]);
    assert_eq!(
        theme_dir("/h/.config/cosmic", "Dark.Builder", "v2"),
        "/h/.config/cosmic/com.system76.CosmicTheme.Dark.Builder/v2"
    );
    assert_eq!(dark_mode_text(true), "true\n");
    assert_eq!(dark_mode_text(false), "false\n");
    assert!(theme_wanted(true, false));
    assert!(theme_wanted(false, true));
    assert!(!theme_wanted(false, false));
}

#[test]
fn now_playing_bar_texts() {
    let idle = AppState::new(Config::default(), Language::En, Vec::new(), "*".to_string(), Vec::new(), false, false);
    assert_eq!(idle.now_playing(), ("No wallpaper playing".to_string(), "Standard COSMIC desktop".to_string()));

    let mut c = Config::default();
    c.current = Some("/v/Ocean Waves.mp4".to_string());
    c.wallpapers.insert("DP-1".to_string(), "/v/Ocean Waves.mp4".to_string());
    c.wallpapers.insert("HDMI-A-1".to_string(), "/v/b.mp4".to_string());
    let s = AppState::new(c, Language::En, Vec::new(), "*".to_string(), Vec::new(), false, false);
    assert_eq!(s.now_playing(), ("Ocean Waves".to_string(), "Display: DP-1, HDMI-A-1".to_string()));

    let mut c = Config::default();
    c.current = Some("/v/a.webm".to_string());
    c.wallpapers.insert("*".to_string(), "/v/a.webm".to_string());
    c.rotation = true;
    c.interval = 15;
    let s = AppState::new(c, Language::Es, Vec::new(), "*".to_string(), Vec::new(), false, false);
    assert_eq!(s.now_playing(), ("a".to_string(), "Pantalla: * • ⟳ 15m".to_string()));
}

#[test]
fn quick_switcher_cards() {
    assert_eq!(switcher_slots(9), vec![-2, -1, 0, 1, 2]);
    assert_eq!(switcher_slots(4), vec![-2, -1, 0, 1]);
    assert_eq!(switcher_slots(3), vec![-1, 0, 1]);
    assert_eq!(switcher_slots(2), vec![0, 1]);
    assert_eq!(switcher_slots(1), vec![0]);
    assert_eq!(switcher_item(0, -2, 5), 3);
    assert_eq!(switcher_item(0, -1, 5), 4);
    assert_eq!(switcher_item(7, 0, 5), 2);
    assert_eq!(switcher_item(4, 2, 5), 1);
    assert_eq!(switcher_item(0, -1, 1), 0);
    assert_eq!(switcher_item(1, -2, 2), 1);
    assert_eq!(screen_card_title("DP-1", "2560x1440"), "DP-1 • 2560x1440");
}

#[test]
fn test_apply_disabled() {
    assert_eq!(theme_wanted(false, false), false);
}
