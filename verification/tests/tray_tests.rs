use aura::i18n::Language;
use aura::tray::{TrayAction, TrayState};

#[test]
fn tray_menu_follows_state() {
    let mut t = TrayState::new(Language::En);
    let m = t.menu();
    assert_eq!(m.len(), 6);
    assert_eq!(m[0].label, "Open Aura");
    assert_eq!(m[1].label, "Pause Wallpaper");
    assert!(!m[1].enabled);
    assert_eq!(m[4].action, None);
    assert_eq!(m[5].action, Some(TrayAction::QuitApp));
    t.update_state("Sea".to_string(), true, true);
    let m = t.menu();
    assert_eq!(m[1].label, "Resume Wallpaper");
    assert!(m[1].enabled && m[2].enabled && m[3].enabled);
    t.set_language(Language::Es);
    assert_eq!(t.menu()[2].label, "Siguiente Fondo");
}

#[test]
fn tray_tooltip_text() {
    let mut t = TrayState::new(Language::Es);
    assert_eq!(t.tool_tip(), ("Aura • Live Wallpaper".to_string(), "Sin fondo en reproducción".to_string()));
    t.update_state("Mar".to_string(), false, true);
    assert_eq!(t.tool_tip().1, "Reproduciendo: Mar");
}
