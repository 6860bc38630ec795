//! The system tray: its menu, its tooltip, and the state they show.
use vstd::prelude::*;
use crate::i18n::Language;
use crate::text::owned;

verus! {

/// What a tray menu entry asks the application to do.
#[derive(Debug, Clone, Copy, PartialEq, Eq, Structural)]
pub enum TrayAction {
    ShowApp,
    TogglePause,
    NextWallpaper,
    StopWallpaper,
    QuitApp,
}

/// What the tray shows: the current wallpaper's name (empty when none),
/// whether it is paused, whether any wallpaper is set, and the language.
pub struct TrayState {
    pub current_name: String,
    pub is_paused: bool,
    pub has_wallpaper: bool,
    pub language: Language,
}

/// An entry of the tray menu; a separator has no action.
pub struct TrayMenuItem {
    pub label: String,
    pub enabled: bool,
    pub action: Option<TrayAction>,
}

/// An entry as plain values.
pub open spec fn item_view(i: TrayMenuItem) -> (Seq<char>, bool, Option<TrayAction>) {
    (i.label@, i.enabled, i.action)
}

/// The tray menu: open; pause or resume (by the pause state); next; stop;
/// a separator; quit. Pause, next and stop are enabled only while a
/// wallpaper is set.
pub open spec fn tray_menu_spec(lang: Language, is_paused: bool, has_wallpaper: bool) -> Seq<(Seq<char>, bool, Option<TrayAction>)> {
    seq![
        (lang.pick("Abrir Aura"@, "Open Aura"@), true, Some(TrayAction::ShowApp)),
        (if is_paused { lang.pick("Reanudar Fondo"@, "Resume Wallpaper"@) } else { lang.pick("Pausar Fondo"@, "Pause Wallpaper"@) }, has_wallpaper, Some(TrayAction::TogglePause)),
        (lang.pick("Siguiente Fondo"@, "Next Wallpaper"@), has_wallpaper, Some(TrayAction::NextWallpaper)),
        (lang.pick("Detener Fondo"@, "Stop Wallpaper"@), has_wallpaper, Some(TrayAction::StopWallpaper)),
        (seq![], true, None),
        (lang.pick("Salir de Aura"@, "Quit Aura"@), true, Some(TrayAction::QuitApp)),
    ]
}

impl TrayState {
    pub fn new(language: Language) -> (s: TrayState)
        ensures
            s.current_name@.len() == 0,
            !s.is_paused,
            !s.has_wallpaper,
            s.language == language,
    {
        TrayState { current_name: String::new(), is_paused: false, has_wallpaper: false, language }
    }

    /// Shows another wallpaper state.
    pub fn update_state(&mut self, current_name: String, is_paused: bool, has_wallpaper: bool)
        ensures
            final(self).current_name@ == current_name@,
            final(self).is_paused == is_paused,
            final(self).has_wallpaper == has_wallpaper,
            final(self).language == old(self).language,
    {
        self.current_name = current_name;
        self.is_paused = is_paused;
        self.has_wallpaper = has_wallpaper;
    }

    /// Shows the tray in another language.
    pub fn set_language(&mut self, language: Language)
        ensures
            final(self).language == language,
            final(self).current_name@ == old(self).current_name@,
            final(self).is_paused == old(self).is_paused,
            final(self).has_wallpaper == old(self).has_wallpaper,
    {
        self.language = language;
    }

    /// The tooltip: a fixed title, and the wallpaper that plays (or that
    /// none does).
    pub fn tool_tip(&self) -> (r: (String, String))
        ensures
            r.0@ == "Aura • Live Wallpaper"@,
            r.1@ == (if self.current_name@.len() == 0 {
                self.language.pick("Sin fondo en reproducción"@, "No wallpaper playing"@)
            } else {
                self.language.pick("Reproduciendo: "@ + self.current_name@, "Playing: "@ + self.current_name@)
            }),
    {
        let desc = if self.current_name.as_str().is_empty() {
            owned(self.language.tray_tooltip_idle())
        } else {
            self.language.tray_tooltip_playing(self.current_name.as_str())
        };
        (owned("Aura • Live Wallpaper"), desc)
    }

    /// See `tray_menu_spec`.
    pub fn menu(&self) -> (r: Vec<TrayMenuItem>)
        ensures
            r@.map_values(|i: TrayMenuItem| item_view(i)) == tray_menu_spec(self.language, self.is_paused, self.has_wallpaper),
    {
        let lang = self.language;
        let mut r: Vec<TrayMenuItem> = Vec::new();
        r.push(TrayMenuItem { label: owned(lang.tray_open()), enabled: true, action: Some(TrayAction::ShowApp) });
        let pause_label = if self.is_paused { lang.tray_resume() } else { lang.tray_pause() };
        r.push(TrayMenuItem { label: owned(pause_label), enabled: self.has_wallpaper, action: Some(TrayAction::TogglePause) });
        r.push(TrayMenuItem { label: owned(lang.tray_next()), enabled: self.has_wallpaper, action: Some(TrayAction::NextWallpaper) });
        r.push(TrayMenuItem { label: owned(lang.tray_stop()), enabled: self.has_wallpaper, action: Some(TrayAction::StopWallpaper) });
        r.push(TrayMenuItem { label: String::new(), enabled: true, action: None });
        r.push(TrayMenuItem { label: owned(lang.tray_quit()), enabled: true, action: Some(TrayAction::QuitApp) });
        proof {
            assert(r@.map_values(|i: TrayMenuItem| item_view(i)) =~= tray_menu_spec(self.language, self.is_paused, self.has_wallpaper));
        }
        r
    }
}

} // verus!
