use aura::system::{game_active, is_heavy_process_cmdline};

#[test]
fn test_is_heavy_process_cmdline() {
    assert!(is_heavy_process_cmdline("/usr/bin/gamescope -W 1920"));
    assert!(is_heavy_process_cmdline("proton run game.exe"));
    assert!(is_heavy_process_cmdline("heroic --wine game.exe"));
    assert!(is_heavy_process_cmdline("steam_app_12345"));
    assert!(is_heavy_process_cmdline("wine64-preloader app.exe"));
    assert!(is_heavy_process_cmdline("lutris-wrapper game"));
    assert!(!is_heavy_process_cmdline("/usr/bin/bash"));
    assert!(!is_heavy_process_cmdline("cosmic-panel"));
    assert!(!is_heavy_process_cmdline("/usr/bin/protonvpn-app"));
    assert!(!is_heavy_process_cmdline("/opt/heroic/heroic"));
    assert!(!is_heavy_process_cmdline(""));
}

#[test]
fn heavy_process_check_ignores_case() {
    assert!(is_heavy_process_cmdline("/usr/bin/GameScope"));
    assert!(!is_heavy_process_cmdline("ProtonVPN gamescope"));
}

#[test]
fn game_detection_sources() {
    assert!(game_active(Some(true), &vec![]));
    assert!(!game_active(Some(false), &vec!["bash".to_string()]));
    assert!(game_active(None, &vec!["bash".to_string(), "steam_app_1".to_string()]));
    assert!(!game_active(None, &vec![]));
}
