//! Messages that change a setting.
use vstd::prelude::*;
use crate::config::Config;
use crate::i18n::Language;
use crate::state::{AppState, Effects, LibraryFilter, plain_notice, reapply_spec, request_view, requests_view};
use crate::text::{concat2, decimal, owned, push_decimal, push_str, str_eq};

verus! {

/// The one request to show `path` on `output` with these settings.
fn single_request(output: &str, path: String, scaling: &str, mute: bool, volume: u8, hwdec: &str) -> (r: Vec<crate::state::WallpaperRequest>)
    ensures
        r@.len() == 1,
        request_view(r@[0]) == (output@, path@, scaling@, mute, volume, hwdec@),
{
    let req = crate::state::WallpaperRequest {
        output: owned(output),
        path,
        scaling: owned(scaling),
        mute,
        volume,
        hwdec: owned(hwdec),
    };
    let mut r: Vec<crate::state::WallpaperRequest> = Vec::new();
    r.push(req);
    r
}

/// The status text of a scaling change.
fn scaling_text(output: &str, scaling: &str) -> (r: String)
    ensures
        r@ == "Modo de escala para "@ + output@ + " cambiado a '"@ + scaling@ + "'"@,
{
    let mut text = owned("Modo de escala para ");
    push_str(&mut text, output);
    push_str(&mut text, " cambiado a '");
    push_str(&mut text, scaling);
    push_str(&mut text, "'");
    text
}

impl AppState {
    /// Another output becomes the target of new wallpapers; the settings
    /// are saved and the choice is shown.
    pub fn select_output(&mut self, out: String) -> (e: Effects)
        ensures
            *final(self) == (AppState {
                selected_output: out,
                config: (Config { output: out, ..old(self).config }),
                status_message: final(self).status_message,
                ..*old(self)
            }),
            e.save_config,
            plain_notice(e.notice, "Pantalla seleccionada: "@ + out@),
            final(self).status_message matches Some(m) && m@ == "Pantalla seleccionada: "@ + out@,
            e.engine@.len() == 0 && e.wallpapers@.len() == 0 && !e.rescan && e.tray is None && e.theme is None && e.follow_up is None && e.autostart is None,
    {
        self.selected_output = out.clone();
        self.config.output = out.clone();
        let text = concat2("Pantalla seleccionada: ", out.as_str());
        let mut e = Effects::none();
        e.save_config = true;
        e.notice = Some(self.set_status(text));
        e
    }

    /// Another hardware decoder: the settings are saved, every wallpaper is
    /// started again with it, and the choice is shown.
    pub fn select_hwdec(&mut self, hwdec: String) -> (e: Effects)
        requires
            old(self).wf(),
        ensures
            *final(self) == (AppState {
                config: (Config { hwdec: hwdec, ..old(self).config }),
                status_message: final(self).status_message,
                ..*old(self)
            }),
            e.save_config,
            requests_view(e.wallpapers@) == reapply_spec(final(self).config, old(self).config.mute),
            plain_notice(e.notice, "Decodificador GPU: "@ + hwdec@),
            final(self).status_message matches Some(m) && m@ == "Decodificador GPU: "@ + hwdec@,
            e.engine@.len() == 0 && !e.rescan && e.tray is None && e.theme is None && e.follow_up is None && e.autostart is None,
    {
        self.config.hwdec = hwdec.clone();
        let mut e = Effects::none();
        e.save_config = true;
        e.wallpapers = self.reapply_requests(self.config.mute);
        let text = concat2("Decodificador GPU: ", hwdec.as_str());
        e.notice = Some(self.set_status(text));
        e
    }

    /// Turns the rotation on or off; the settings are saved and the change
    /// is shown.
    pub fn toggle_rotation(&mut self, active: bool) -> (e: Effects)
        ensures
            *final(self) == (AppState {
                config: (Config { rotation: active, ..old(self).config }),
                status_message: final(self).status_message,
                ..*old(self)
            }),
            e.save_config,
            plain_notice(e.notice, if active { "Rotación automática activada"@ } else { "Rotación automática desactivada"@ }),
            final(self).status_message matches Some(m) && m@ == (if active { "Rotación automática activada"@ } else { "Rotación automática desactivada"@ }),
            e.engine@.len() == 0 && e.wallpapers@.len() == 0 && !e.rescan && e.tray is None && e.theme is None && e.follow_up is None && e.autostart is None,
    {
        self.config.rotation = active;
        let mut e = Effects::none();
        e.save_config = true;
        let text = if active { owned("Rotación automática activada") } else { owned("Rotación automática desactivada") };
        e.notice = Some(self.set_status(text));
        e
    }

    /// Sets the minutes between rotations; the settings are saved and the
    /// value is shown.
    pub fn select_interval(&mut self, interval: u64) -> (e: Effects)
        ensures
            *final(self) == (AppState {
                config: (Config { interval: interval, ..old(self).config }),
                status_message: final(self).status_message,
                ..*old(self)
            }),
            e.save_config,
            plain_notice(e.notice, "Intervalo de rotación: "@ + decimal(interval as nat) + " min"@),
            final(self).status_message matches Some(m) && m@ == "Intervalo de rotación: "@ + decimal(interval as nat) + " min"@,
            e.engine@.len() == 0 && e.wallpapers@.len() == 0 && !e.rescan && e.tray is None && e.theme is None && e.follow_up is None && e.autostart is None,
    {
        self.config.interval = interval;
        let mut text = owned("Intervalo de rotación: ");
        push_decimal(&mut text, interval);
        push_str(&mut text, " min");
        let mut e = Effects::none();
        e.save_config = true;
        e.notice = Some(self.set_status(text));
        e
    }

    /// Sets the rotation order (`random` or sequential); the settings are
    /// saved and the order is shown.
    pub fn select_rotation_order(&mut self, order: String) -> (e: Effects)
        ensures
            *final(self) == (AppState {
                config: (Config { order: order, ..old(self).config }),
                status_message: final(self).status_message,
                ..*old(self)
            }),
            e.save_config,
            plain_notice(e.notice, "Orden de rotación: "@ + (if order@ == "random"@ { "Aleatorio"@ } else { "Secuencial"@ })),
            final(self).status_message matches Some(m) && m@ == "Orden de rotación: "@ + (if order@ == "random"@ { "Aleatorio"@ } else { "Secuencial"@ }),
            e.engine@.len() == 0 && e.wallpapers@.len() == 0 && !e.rescan && e.tray is None && e.theme is None && e.follow_up is None && e.autostart is None,
    {
        let random = str_eq(order.as_str(), "random");
        self.config.order = order;
        let text = concat2("Orden de rotación: ", if random { "Aleatorio" } else { "Secuencial" });
        let mut e = Effects::none();
        e.save_config = true;
        e.notice = Some(self.set_status(text));
        e
    }

    /// Turns pausing on battery on or off; the settings are saved and the
    /// change is shown.
    pub fn toggle_pause_on_battery(&mut self, active: bool) -> (e: Effects)
        ensures
            *final(self) == (AppState {
                config: (Config { pause_on_battery: active, ..old(self).config }),
                status_message: final(self).status_message,
                ..*old(self)
            }),
            e.save_config,
            plain_notice(e.notice, if active { "Ahorro de batería activado"@ } else { "Ahorro de batería desactivado"@ }),
            final(self).status_message matches Some(m) && m@ == (if active { "Ahorro de batería activado"@ } else { "Ahorro de batería desactivado"@ }),
            e.engine@.len() == 0 && e.wallpapers@.len() == 0 && !e.rescan && e.tray is None && e.theme is None && e.follow_up is None && e.autostart is None,
    {
        self.config.pause_on_battery = active;
        let text = if active { owned("Ahorro de batería activado") } else { owned("Ahorro de batería desactivado") };
        let mut e = Effects::none();
        e.save_config = true;
        e.notice = Some(self.set_status(text));
        e
    }

    /// Sets the volume; the settings are saved and, unless muted, every
    /// wallpaper is started again with sound at that volume.
    pub fn change_volume(&mut self, volume: u8) -> (e: Effects)
        requires
            old(self).wf(),
        ensures
            *final(self) == (AppState { config: (Config { volume: volume, ..old(self).config }), ..*old(self) }),
            e.save_config,
            old(self).config.mute ==> e.wallpapers@.len() == 0,
            !old(self).config.mute ==> requests_view(e.wallpapers@) == reapply_spec(final(self).config, false),
            e.engine@.len() == 0 && !e.rescan && e.tray is None && e.theme is None && e.notice is None && e.follow_up is None && e.autostart is None,
    {
        self.config.volume = volume;
        let mut e = Effects::none();
        e.save_config = true;
        if !self.config.mute {
            e.wallpapers = self.reapply_requests(false);
        }
        e
    }

    /// Turns the sound off or on: the settings are saved, every wallpaper
    /// is started again with the new setting, and the change is shown for
    /// five seconds.
    pub fn toggle_mute(&mut self, mute: bool) -> (e: Effects)
        requires
            old(self).wf(),
        ensures
            *final(self) == (AppState {
                config: (Config { mute: mute, ..old(self).config }),
                status_message: final(self).status_message,
                status_timer: 5,
                ..*old(self)
            }),
            final(self).status_message matches Some(m) && m@ == (if mute {
                old(self).language.pick("Audio silenciado"@, "Audio muted"@)
            } else {
                old(self).language.pick("Audio activado"@, "Audio enabled"@)
            }),
            e.save_config,
            requests_view(e.wallpapers@) == reapply_spec(final(self).config, mute),
            e.engine@.len() == 0 && !e.rescan && e.tray is None && e.theme is None && e.notice is None && e.follow_up is None && e.autostart is None,
    {
        self.config.mute = mute;
        let mut e = Effects::none();
        e.save_config = true;
        e.wallpapers = self.reapply_requests(mute);
        let text = if mute { owned(self.language.status_muted()) } else { owned(self.language.status_unmuted()) };
        self.set_timed_status(text);
        e
    }

    /// Turns starting with the session on or off: the autostart entry is
    /// written or removed, the settings are saved, and the change is shown
    /// for five seconds.
    pub fn toggle_autostart(&mut self, active: bool) -> (e: Effects)
        ensures
            *final(self) == (AppState {
                autostart_active: active,
                config: (Config { autostart: active, ..old(self).config }),
                status_message: final(self).status_message,
                status_timer: 5,
                ..*old(self)
            }),
            final(self).status_message matches Some(m) && m@ == (if active {
                old(self).language.pick("Inicio automático activado"@, "Autostart enabled"@)
            } else {
                old(self).language.pick("Inicio automático desactivado"@, "Autostart disabled"@)
            }),
            e.save_config,
            e.autostart == Some(active),
            e.engine@.len() == 0 && e.wallpapers@.len() == 0 && !e.rescan && e.tray is None && e.theme is None && e.notice is None && e.follow_up is None,
    {
        self.autostart_active = active;
        self.config.autostart = active;
        let text = match self.language {
            Language::Es => if active { owned("Inicio automático activado") } else { owned("Inicio automático desactivado") },
            Language::En => if active { owned("Autostart enabled") } else { owned("Autostart disabled") },
        };
        self.set_timed_status(text);
        let mut e = Effects::none();
        e.save_config = true;
        e.autostart = Some(active);
        e
    }

    /// Turns the accent colour taken from the wallpaper on or off; the
    /// settings are saved.
    pub fn toggle_auto_theme(&mut self, active: bool) -> (e: Effects)
        ensures
            *final(self) == (AppState { config: (Config { auto_theme: active, ..old(self).config }), ..*old(self) }),
            e.save_config,
            e.engine@.len() == 0 && e.wallpapers@.len() == 0 && !e.rescan && e.tray is None && e.theme is None && e.notice is None && e.follow_up is None && e.autostart is None,
    {
        self.config.auto_theme = active;
        let mut e = Effects::none();
        e.save_config = true;
        e
    }

    /// Turns the dark theme taken from the wallpaper on or off; the
    /// settings are saved.
    pub fn toggle_auto_dark(&mut self, active: bool) -> (e: Effects)
        ensures
            *final(self) == (AppState { config: (Config { auto_dark: active, ..old(self).config }), ..*old(self) }),
            e.save_config,
            e.engine@.len() == 0 && e.wallpapers@.len() == 0 && !e.rescan && e.tray is None && e.theme is None && e.notice is None && e.follow_up is None && e.autostart is None,
    {
        self.config.auto_dark = active;
        let mut e = Effects::none();
        e.save_config = true;
        e
    }

    /// Turns pausing during games on or off; the settings are saved.
    pub fn toggle_smart_pause(&mut self, active: bool) -> (e: Effects)
        ensures
            *final(self) == (AppState { config: (Config { smart_pause: active, ..old(self).config }), ..*old(self) }),
            e.save_config,
            e.engine@.len() == 0 && e.wallpapers@.len() == 0 && !e.rescan && e.tray is None && e.theme is None && e.notice is None && e.follow_up is None && e.autostart is None,
    {
        self.config.smart_pause = active;
        let mut e = Effects::none();
        e.save_config = true;
        e
    }

    /// Turns running on after the window closes on or off; the settings
    /// are saved.
    pub fn toggle_keep_running_on_close(&mut self, active: bool) -> (e: Effects)
        ensures
            *final(self) == (AppState { config: (Config { keep_running_on_close: active, ..old(self).config }), ..*old(self) }),
            e.save_config,
            e.engine@.len() == 0 && e.wallpapers@.len() == 0 && !e.rescan && e.tray is None && e.theme is None && e.notice is None && e.follow_up is None && e.autostart is None,
    {
        self.config.keep_running_on_close = active;
        let mut e = Effects::none();
        e.save_config = true;
        e
    }

    /// Switches the language: its code is saved in the settings and the
    /// change is shown in the new language.
    pub fn set_language(&mut self, lang: Language) -> (e: Effects)
        ensures
            *final(self) == (AppState {
                language: lang,
                config: (Config { language: final(self).config.language, ..old(self).config }),
                status_message: final(self).status_message,
                ..*old(self)
            }),
            final(self).config.language@ == lang.code_text(),
            e.save_config,
            plain_notice(e.notice, lang.pick("Idioma cambiado a Español"@, "Language switched to English"@)),
            final(self).status_message matches Some(m) && m@ == lang.pick("Idioma cambiado a Español"@, "Language switched to English"@),
            e.engine@.len() == 0 && e.wallpapers@.len() == 0 && !e.rescan && e.tray is None && e.theme is None && e.follow_up is None && e.autostart is None,
    {
        self.language = lang;
        self.config.language = owned(lang.code());
        let mut e = Effects::none();
        e.save_config = true;
        e.notice = Some(self.set_status(owned(lang.status_lang_changed())));
        e
    }

    /// Sets the scaling of an output; the settings are saved, and when the
    /// output shows a wallpaper it is started again with that scaling and
    /// the change is shown for five seconds.
    #[verifier::rlimit(100)]
    pub fn select_scaling(&mut self, output: String, scaling: String) -> (e: Effects)
        requires
            old(self).wf(),
        ensures
            final(self).wf(),
            final(self).config.scaling@ == old(self).config.scaling@.insert(output@, scaling@),
            final(self).config == (Config { scaling: final(self).config.scaling, ..old(self).config }),
            old(self).config.wallpapers@.dom().contains(output@) ==> *final(self) == (AppState {
                config: final(self).config,
                status_message: final(self).status_message,
                status_timer: 5,
                ..*old(self)
            }),
            old(self).config.wallpapers@.dom().contains(output@) ==> (final(self).status_message matches Some(m)
                && m@ == "Modo de escala para "@ + output@ + " cambiado a '"@ + scaling@ + "'"@),
            old(self).config.wallpapers@.dom().contains(output@) ==> e.wallpapers@.len() == 1
                && request_view(e.wallpapers@[0]) == (output@, old(self).config.wallpapers@[output@], scaling@, old(self).config.mute, old(self).config.volume, old(self).config.hwdec@),
            !old(self).config.wallpapers@.dom().contains(output@) ==> *final(self) == (AppState { config: final(self).config, ..*old(self) }),
            !old(self).config.wallpapers@.dom().contains(output@) ==> e.wallpapers@.len() == 0,
            e.save_config,
            e.engine@.len() == 0 && !e.rescan && e.tray is None && e.theme is None && e.notice is None && e.follow_up is None && e.autostart is None,
    {
        let current = self.config.wallpapers.get(output.as_str());
        self.config.scaling.insert(output.clone(), scaling.clone());
        let mut e = Effects::none();
        e.save_config = true;
        match current {
            Some(path) => {
                assert(path@ == old(self).config.wallpapers@[output@]);
                assert(self.config.mute == old(self).config.mute && self.config.volume == old(self).config.volume && self.config.hwdec == old(self).config.hwdec);
                e.wallpapers = single_request(output.as_str(), path, scaling.as_str(), self.config.mute, self.config.volume, self.config.hwdec.as_str());
                let text = scaling_text(output.as_str(), scaling.as_str());
                self.set_timed_status(text);
            },
            None => {},
        }
        e
    }

    /// One second passed: the status line's time runs down, and the line is
    /// cleared when it runs out.
    pub fn tick_second(&mut self)
        ensures
            old(self).status_timer == 0 ==> *final(self) == *old(self),
            old(self).status_timer == 1 ==> *final(self) == (AppState { status_timer: 0, status_message: None, ..*old(self) }),
            old(self).status_timer > 1 ==> *final(self) == (AppState { status_timer: (old(self).status_timer - 1) as u8, ..*old(self) }),
    {
        if self.status_timer > 0 {
            self.status_timer = self.status_timer - 1;
            if self.status_timer == 0 {
                self.status_message = None;
            }
        }
    }

    /// Clears the status line.
    pub fn dismiss_status(&mut self)
        ensures
            *final(self) == (AppState { status_message: None, status_timer: 0, ..*old(self) }),
    {
        self.status_message = None;
        self.status_timer = 0;
    }

    /// The library search text changed.
    pub fn search_changed(&mut self, q: String)
        ensures
            *final(self) == (AppState { search_query: q, ..*old(self) }),
    {
        self.search_query = q;
    }

    /// Lists another part of the library.
    pub fn select_library_filter(&mut self, filter: LibraryFilter)
        ensures
            *final(self) == (AppState { library_filter: filter, ..*old(self) }),
    {
        self.library_filter = filter;
    }
}

} // verus!
