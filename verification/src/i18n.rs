//! User-facing texts of the application in Spanish and English.
use vstd::prelude::*;
use crate::text::{decimal, push_decimal, push_str};
use crate::unicode::{lowercase, to_lowercase};

verus! {

/// The two interface languages.
#[derive(Debug, Clone, Copy, PartialEq, Eq, Structural)]
pub enum Language {
    Es,
    En,
}

/// The version of the application shown in the About view.
pub const APP_VERSION: &'static str = "1.3.3";

/// Chooses the language of the system locale: Spanish when the locale
/// (the `LANG` value when it is set, else `LC_MESSAGES`) starts, in lower
/// case, with `es`; English otherwise.
pub open spec fn language_for_locale(lang: Option<Seq<char>>, lc_messages: Option<Seq<char>>) -> Language {
    let chosen = match lang {
        Some(l) => Some(l),
        None => lc_messages,
    };
    match chosen {
        Some(l) => if crate::text::has_prefix(lowercase(l), "es"@) { Language::Es } else { Language::En },
        None => Language::En,
    }
}

/// The language for the locale variables (`LANG`, then `LC_MESSAGES`), each
/// given as read from the environment (`None` when unset).
pub fn detect_system_language(lang: Option<&str>, lc_messages: Option<&str>) -> (r: Language)
    ensures
        r == language_for_locale(
            match lang { Some(l) => Some(l@), None => None },
            match lc_messages { Some(l) => Some(l@), None => None },
        ),
{
    let chosen = match lang {
        Some(l) => Some(l),
        None => lc_messages,
    };
    match chosen {
        Some(l) => {
            let lower = to_lowercase(l);
            let lv = crate::text::chars_of(lower.as_str());
            let es = crate::text::chars_of("es");
            proof { reveal_strlit("es"); }
            if crate::text::starts_with(&lv, &es) {
                Language::Es
            } else {
                Language::En
            }
        },
        None => Language::En,
    }
}

/// The language that a code names: Spanish for `es`, `spanish` or
/// `español` in any letter case, English for anything else.
pub open spec fn language_for_code(code: Seq<char>) -> Language {
    let l = lowercase(code);
    if l == "es"@ || l == "spanish"@ || l == "español"@ {
        Language::Es
    } else {
        Language::En
    }
}

/// `language_for_code` on input whose characters are all ASCII, where the
/// lower-case mapping is the ASCII one.
pub open spec fn language_for_ascii_code(code: Seq<char>) -> Language {
    let l = crate::unicode::ascii_lower(code);
    if l == "es"@ || l == "spanish"@ || l == "español"@ {
        Language::Es
    } else {
        Language::En
    }
}

/// Reading back the code of a language gives the language again:
/// `Language::from_code(lang.code()) == lang`.
pub proof fn lemma_code_round_trip(lang: Language)
    ensures
        crate::unicode::all_ascii(lang.code_text()),
        language_for_ascii_code(lang.code_text()) == lang,
{
    reveal_strlit("es");
    reveal_strlit("en");
    reveal_strlit("spanish");
    reveal_strlit("español");
    assert(crate::unicode::ascii_lower("es"@) =~= "es"@);
    assert(crate::unicode::ascii_lower("en"@) =~= "en"@);
    assert("en"@ != "es"@) by {
        assert("en"@[1] != "es"@[1]);
    }
}

impl Language {
    /// Chooses the Spanish or the English variant of a text.
    pub open spec fn pick(self, es: Seq<char>, en: Seq<char>) -> Seq<char> {
        match self {
            Language::Es => es,
            Language::En => en,
        }
    }

    /// The code of the language as stored in the configuration.
    pub open spec fn code_text(self) -> Seq<char> {
        self.pick("es"@, "en"@)
    }

    pub fn from_code(code: &str) -> (r: Language)
        ensures
            r == language_for_code(code@),
            crate::unicode::all_ascii(code@) ==> r == language_for_ascii_code(code@),
    {
        let lower = to_lowercase(code);
        let l = lower.as_str();
        if crate::text::str_eq(l, "es") || crate::text::str_eq(l, "spanish") || crate::text::str_eq(l, "español") {
            Language::Es
        } else {
            Language::En
        }
    }

    pub fn code(&self) -> (r: &'static str)
        ensures
            r@ == self.code_text(),
    {
        match self {
            Language::Es => "es",
            Language::En => "en",
        }
    }

    /// The text of `header_add_video` in this language.
    pub open spec fn header_add_video_text(self) -> Seq<char> {
        self.pick("Añadir Video"@, "Add Video"@)
    }
    /// The text of `header_add_folder` in this language.
    pub open spec fn header_add_folder_text(self) -> Seq<char> {
        self.pick("Añadir Carpeta"@, "Add Folder"@)
    }
    pub fn nav_library(&self) -> (r: &'static str)
        ensures
            r@ == self.pick("Biblioteca"@, "Library"@),
    {
        match self {
            Language::Es => "Biblioteca",
            Language::En => "Library",
        }
    }

    pub fn nav_explore(&self) -> (r: &'static str)
        ensures
            r@ == self.pick("Explorar"@, "Explore"@),
    {
        match self {
            Language::Es => "Explorar",
            Language::En => "Explore",
        }
    }

    pub fn nav_monitors(&self) -> (r: &'static str)
        ensures
            r@ == self.pick("Pantallas"@, "Displays"@),
    {
        match self {
            Language::Es => "Pantallas",
            Language::En => "Displays",
        }
    }

    pub fn nav_settings(&self) -> (r: &'static str)
        ensures
            r@ == self.pick("Ajustes"@, "Settings"@),
    {
        match self {
            Language::Es => "Ajustes",
            Language::En => "Settings",
        }
    }

    pub fn nav_about(&self) -> (r: &'static str)
        ensures
            r@ == self.pick("Acerca de"@, "About"@),
    {
        match self {
            Language::Es => "Acerca de",
            Language::En => "About",
        }
    }

    pub fn header_wallpapers_count(&self, count: usize) -> (r: String)
        ensures
            r@ == self.pick("("@ + decimal(count as nat) + " fondos)"@, "("@ + decimal(count as nat) + " wallpapers)"@),
    {
        match self {
            Language::Es => {
                let mut s = String::new();
                push_str(&mut s, "(");
                push_decimal(&mut s, count as u64);
                push_str(&mut s, " fondos)");
                s
            },
            Language::En => {
                let mut s = String::new();
                push_str(&mut s, "(");
                push_decimal(&mut s, count as u64);
                push_str(&mut s, " wallpapers)");
                s
            },
        }
    }

    pub fn header_add_video(&self) -> (r: &'static str)
        ensures
            r@ == self.pick("Añadir Video"@, "Add Video"@),
    {
        match self {
            Language::Es => "Añadir Video",
            Language::En => "Add Video",
        }
    }

    pub fn header_add_folder(&self) -> (r: &'static str)
        ensures
            r@ == self.pick("Añadir Carpeta"@, "Add Folder"@),
    {
        match self {
            Language::Es => "Añadir Carpeta",
            Language::En => "Add Folder",
        }
    }

    pub fn library_search_placeholder(&self) -> (r: &'static str)
        ensures
            r@ == self.pick("Buscar fondos por nombre..."@, "Search wallpapers by name..."@),
    {
        match self {
            Language::Es => "Buscar fondos por nombre...",
            Language::En => "Search wallpapers by name...",
        }
    }

    pub fn library_empty_title(&self) -> (r: &'static str)
        ensures
            r@ == self.pick("Tu Biblioteca de Fondos está vacía"@, "Your Wallpaper Library is empty"@),
    {
        match self {
            Language::Es => "Tu Biblioteca de Fondos está vacía",
            Language::En => "Your Wallpaper Library is empty",
        }
    }

    pub fn library_empty_desc(&self) -> (r: &'static str)
        ensures
            r@ == self.pick("Añade videos o carpetas para empezar a personalizar tu escritorio:"@, "Add videos or folders to start customizing your desktop:"@),
    {
        match self {
            Language::Es => "Añade videos o carpetas para empezar a personalizar tu escritorio:",
            Language::En => "Add videos or folders to start customizing your desktop:",
        }
    }

    pub fn library_btn_add_video(&self) -> (r: &'static str)
        ensures
            r@ == self.header_add_video_text(),
    {
        self.header_add_video()
    }

    pub fn library_btn_add_folder(&self) -> (r: &'static str)
        ensures
            r@ == self.header_add_folder_text(),
    {
        self.header_add_folder()
    }

    pub fn library_extracting_frame(&self) -> (r: &'static str)
        ensures
            r@ == self.pick("Extrayendo fotograma..."@, "Extracting frame..."@),
    {
        match self {
            Language::Es => "Extrayendo fotograma...",
            Language::En => "Extracting frame...",
        }
    }

    pub fn library_active(&self) -> (r: &'static str)
        ensures
            r@ == self.pick("En uso"@, "Active"@),
    {
        match self {
            Language::Es => "En uso",
            Language::En => "Active",
        }
    }

    pub fn library_apply(&self) -> (r: &'static str)
        ensures
            r@ == self.pick("Aplicar"@, "Apply"@),
    {
        match self {
            Language::Es => "Aplicar",
            Language::En => "Apply",
        }
    }

    pub fn library_filter_all(&self) -> (r: &'static str)
        ensures
            r@ == self.pick("Todos"@, "All"@),
    {
        match self {
            Language::Es => "Todos",
            Language::En => "All",
        }
    }

    pub fn library_filter_live(&self) -> (r: &'static str)
        ensures
            r@ == self.pick("Animados"@, "Live"@),
    {
        match self {
            Language::Es => "Animados",
            Language::En => "Live",
        }
    }

    pub fn library_filter_static(&self) -> (r: &'static str)
        ensures
            r@ == self.pick("Estáticos"@, "Static"@),
    {
        match self {
            Language::Es => "Estáticos",
            Language::En => "Static",
        }
    }

    pub fn library_filter_downloaded(&self) -> (r: &'static str)
        ensures
            r@ == self.pick("Descargados"@, "Downloaded"@),
    {
        match self {
            Language::Es => "Descargados",
            Language::En => "Downloaded",
        }
    }

    pub fn library_filter_empty(&self) -> (r: &'static str)
        ensures
            r@ == self.pick("No se encontraron fondos en esta categoría o búsqueda"@, "No wallpapers found in this category or search"@),
    {
        match self {
            Language::Es => "No se encontraron fondos en esta categoría o búsqueda",
            Language::En => "No wallpapers found in this category or search",
        }
    }

    pub fn library_btn_delete(&self) -> (r: &'static str)
        ensures
            r@ == self.pick("Eliminar"@, "Delete"@),
    {
        match self {
            Language::Es => "Eliminar",
            Language::En => "Delete",
        }
    }

    pub fn library_deleted_toast(&self) -> (r: &'static str)
        ensures
            r@ == self.pick("Fondo eliminado de la biblioteca"@, "Wallpaper removed from library"@),
    {
        match self {
            Language::Es => "Fondo eliminado de la biblioteca",
            Language::En => "Wallpaper removed from library",
        }
    }

    pub fn monitors_title(&self) -> (r: &'static str)
        ensures
            r@ == self.pick("Visualizador Interactivo de Pantallas"@, "Interactive Display Visualizer"@),
    {
        match self {
            Language::Es => "Visualizador Interactivo de Pantallas",
            Language::En => "Interactive Display Visualizer",
        }
    }

    pub fn monitors_desc(&self) -> (r: &'static str)
        ensures
            r@ == self.pick("Representación a escala de tus pantallas detectadas en COSMIC. Configura fondos y escalado independiente:"@, "True-to-scale layout of detected COSMIC displays. Configure wallpapers and scaling independently:"@),
    {
        match self {
            Language::Es => "Representación a escala de tus pantallas detectadas en COSMIC. Configura fondos y escalado independiente:",
            Language::En => "True-to-scale layout of detected COSMIC displays. Configure wallpapers and scaling independently:",
        }
    }

    pub fn monitors_screen_name(&self, name: &str) -> (r: String)
        ensures
            r@ == self.pick("Pantalla "@ + name@, "Display "@ + name@),
    {
        match self {
            Language::Es => {
                let mut s = String::new();
                push_str(&mut s, "Pantalla ");
                push_str(&mut s, name);
                s
            },
            Language::En => {
                let mut s = String::new();
                push_str(&mut s, "Display ");
                push_str(&mut s, name);
                s
            },
        }
    }

    pub fn monitors_screen_idle(&self, name: &str) -> (r: String)
        ensures
            r@ == self.pick("Pantalla "@ + name@ + "\n(Escritorio COSMIC)"@, "Display "@ + name@ + "\n(COSMIC Desktop)"@),
    {
        match self {
            Language::Es => {
                let mut s = String::new();
                push_str(&mut s, "Pantalla ");
                push_str(&mut s, name);
                push_str(&mut s, "\n(Escritorio COSMIC)");
                s
            },
            Language::En => {
                let mut s = String::new();
                push_str(&mut s, "Display ");
                push_str(&mut s, name);
                push_str(&mut s, "\n(COSMIC Desktop)");
                s
            },
        }
    }

    pub fn monitors_stop(&self) -> (r: &'static str)
        ensures
            r@ == self.pick("Detener"@, "Stop"@),
    {
        match self {
            Language::Es => "Detener",
            Language::En => "Stop",
        }
    }

    pub fn bar_idle_title(&self) -> (r: &'static str)
        ensures
            r@ == self.pick("Ningún fondo en reproducción"@, "No wallpaper playing"@),
    {
        match self {
            Language::Es => "Ningún fondo en reproducción",
            Language::En => "No wallpaper playing",
        }
    }

    pub fn bar_idle_desc(&self) -> (r: &'static str)
        ensures
            r@ == self.pick("Escritorio COSMIC estándar"@, "Standard COSMIC desktop"@),
    {
        match self {
            Language::Es => "Escritorio COSMIC estándar",
            Language::En => "Standard COSMIC desktop",
        }
    }

    pub fn bar_active_title_default(&self) -> (r: &'static str)
        ensures
            r@ == self.pick("Fondo Activo"@, "Active Wallpaper"@),
    {
        match self {
            Language::Es => "Fondo Activo",
            Language::En => "Active Wallpaper",
        }
    }

    pub fn bar_display_label(&self, outputs: &str) -> (r: String)
        ensures
            r@ == self.pick("Pantalla: "@ + outputs@, "Display: "@ + outputs@),
    {
        match self {
            Language::Es => {
                let mut s = String::new();
                push_str(&mut s, "Pantalla: ");
                push_str(&mut s, outputs);
                s
            },
            Language::En => {
                let mut s = String::new();
                push_str(&mut s, "Display: ");
                push_str(&mut s, outputs);
                s
            },
        }
    }

    pub fn bar_resume(&self) -> (r: &'static str)
        ensures
            r@ == self.pick("Reanudar"@, "Resume"@),
    {
        match self {
            Language::Es => "Reanudar",
            Language::En => "Resume",
        }
    }

    pub fn bar_pause(&self) -> (r: &'static str)
        ensures
            r@ == self.pick("Pausar"@, "Pause"@),
    {
        match self {
            Language::Es => "Pausar",
            Language::En => "Pause",
        }
    }

    pub fn bar_muted(&self) -> (r: &'static str)
        ensures
            r@ == self.pick("Silenciado"@, "Muted"@),
    {
        match self {
            Language::Es => "Silenciado",
            Language::En => "Muted",
        }
    }

    pub fn bar_audio_active(&self) -> (r: &'static str)
        ensures
            r@ == self.pick("Sonido Activo"@, "Audio On"@),
    {
        match self {
            Language::Es => "Sonido Activo",
            Language::En => "Audio On",
        }
    }

    pub fn bar_stop(&self) -> (r: &'static str)
        ensures
            r@ == self.pick("Detener"@, "Stop"@),
    {
        match self {
            Language::Es => "Detener",
            Language::En => "Stop",
        }
    }

    pub fn bar_gpu_accel(&self, hwdec: &str) -> (r: String)
        ensures
            r@ == self.pick("Aceleración GPU: "@ + hwdec@, "GPU Acceleration: "@ + hwdec@),
    {
        match self {
            Language::Es => {
                let mut s = String::new();
                push_str(&mut s, "Aceleración GPU: ");
                push_str(&mut s, hwdec);
                s
            },
            Language::En => {
                let mut s = String::new();
                push_str(&mut s, "GPU Acceleration: ");
                push_str(&mut s, hwdec);
                s
            },
        }
    }

    pub fn bar_wayland_tag(&self) -> (r: &'static str)
        ensures
            r@ == "Wayland Layer-Shell"@,
    {
        "Wayland Layer-Shell"
    }

    pub fn settings_title(&self) -> (r: &'static str)
        ensures
            r@ == self.pick("Ajustes del Sistema"@, "System Settings"@),
    {
        match self {
            Language::Es => "Ajustes del Sistema",
            Language::En => "System Settings",
        }
    }

    pub fn settings_lang_title(&self) -> (r: &'static str)
        ensures
            r@ == self.pick("Idioma / Language"@, "Language / Idioma"@),
    {
        match self {
            Language::Es => "Idioma / Language",
            Language::En => "Language / Idioma",
        }
    }

    pub fn settings_lang_desc(&self) -> (r: &'static str)
        ensures
            r@ == self.pick("Selecciona el idioma de la aplicación. El cambio se aplica inmediatamente sin reiniciar."@, "Select the application language. Changes take effect instantly without restarting."@),
    {
        match self {
            Language::Es => "Selecciona el idioma de la aplicación. El cambio se aplica inmediatamente sin reiniciar.",
            Language::En => "Select the application language. Changes take effect instantly without restarting.",
        }
    }

    pub fn settings_integration_title(&self) -> (r: &'static str)
        ensures
            r@ == self.pick("Integración y Rendimiento"@, "Integration & Performance"@),
    {
        match self {
            Language::Es => "Integración y Rendimiento",
            Language::En => "Integration & Performance",
        }
    }

    pub fn settings_autostart(&self) -> (r: &'static str)
        ensures
            r@ == self.pick("Iniciar fondo animado automáticamente al iniciar sesión en Pop!_OS"@, "Launch animated wallpaper automatically upon login to Pop!_OS"@),
    {
        match self {
            Language::Es => "Iniciar fondo animado automáticamente al iniciar sesión en Pop!_OS",
            Language::En => "Launch animated wallpaper automatically upon login to Pop!_OS",
        }
    }

    pub fn settings_smart_pause(&self) -> (r: &'static str)
        ensures
            r@ == self.pick("Pausar automáticamente en juegos y ventanas a pantalla completa (Smart Pause)"@, "Automatically pause in fullscreen games and windows (Smart Pause)"@),
    {
        match self {
            Language::Es => "Pausar automáticamente en juegos y ventanas a pantalla completa (Smart Pause)",
            Language::En => "Automatically pause in fullscreen games and windows (Smart Pause)",
        }
    }

    pub fn settings_keep_running(&self) -> (r: &'static str)
        ensures
            r@ == self.pick("Minimizar a la barra superior (bandeja del sistema) al cerrar la ventana"@, "Minimize to the top bar (system tray) when closing window"@),
    {
        match self {
            Language::Es => "Minimizar a la barra superior (bandeja del sistema) al cerrar la ventana",
            Language::En => "Minimize to the top bar (system tray) when closing window",
        }
    }

    pub fn settings_auto_theme(&self) -> (r: &'static str)
        ensures
            r@ == self.pick("Sincronizar color de acento del sistema con el fondo (Auto-Tema COSMIC)"@, "Synchronize system accent color with active wallpaper (COSMIC Auto-Theme)"@),
    {
        match self {
            Language::Es => "Sincronizar color de acento del sistema con el fondo (Auto-Tema COSMIC)",
            Language::En => "Synchronize system accent color with active wallpaper (COSMIC Auto-Theme)",
        }
    }

    pub fn settings_auto_dark(&self) -> (r: &'static str)
        ensures
            r@ == self.pick("Cambiar automáticamente entre Modo Oscuro y Claro según la claridad del video"@, "Automatically toggle Dark and Light mode based on video luminance"@),
    {
        match self {
            Language::Es => "Cambiar automáticamente entre Modo Oscuro y Claro según la claridad del video",
            Language::En => "Automatically toggle Dark and Light mode based on video luminance",
        }
    }

    pub fn settings_monitored_folders(&self) -> (r: &'static str)
        ensures
            r@ == self.pick("Carpetas Monitoreadas"@, "Monitored Folders"@),
    {
        match self {
            Language::Es => "Carpetas Monitoreadas",
            Language::En => "Monitored Folders",
        }
    }

    pub fn settings_btn_add_folder(&self) -> (r: &'static str)
        ensures
            r@ == self.pick("Añadir Carpeta"@, "Add Folder"@),
    {
        match self {
            Language::Es => "Añadir Carpeta",
            Language::En => "Add Folder",
        }
    }

    pub fn settings_btn_delete(&self) -> (r: &'static str)
        ensures
            r@ == self.pick("Eliminar"@, "Remove"@),
    {
        match self {
            Language::Es => "Eliminar",
            Language::En => "Remove",
        }
    }

    pub fn settings_persistence_title(&self) -> (r: &'static str)
        ensures
            r@ == self.pick("Persistencia en segundo plano"@, "Background Persistence"@),
    {
        match self {
            Language::Es => "Persistencia en segundo plano",
            Language::En => "Background Persistence",
        }
    }

    pub fn settings_persistence_desc(&self) -> (r: &'static str)
        ensures
            r@ == self.pick("Aura funciona como centro de control. Al cerrar esta ventana, tu fondo animado continuará reproduciéndose sin problemas en tu compositor Wayland a través de mpvpaper, liberando el 100% de la memoria de la interfaz."@, "Aura serves as a control center. When this window is closed, your live wallpaper keeps playing seamlessly in your Wayland compositor via mpvpaper, freeing 100% of the UI memory."@),
    {
        match self {
            Language::Es => "Aura funciona como centro de control. Al cerrar esta ventana, tu fondo animado continuará reproduciéndose sin problemas en tu compositor Wayland a través de mpvpaper, liberando el 100% de la memoria de la interfaz.",
            Language::En => "Aura serves as a control center. When this window is closed, your live wallpaper keeps playing seamlessly in your Wayland compositor via mpvpaper, freeing 100% of the UI memory.",
        }
    }

    pub fn about_tagline(&self) -> (r: &'static str)
        ensures
            r@ == self.pick("Gestor Nativo de Fondos Animados para COSMIC Desktop"@, "Native Live Wallpaper Manager for COSMIC Desktop"@),
    {
        match self {
            Language::Es => "Gestor Nativo de Fondos Animados para COSMIC Desktop",
            Language::En => "Native Live Wallpaper Manager for COSMIC Desktop",
        }
    }

    pub fn about_version_info(&self) -> (r: &'static str)
        ensures
            r@ == self.pick("Versión 1.3.3 • Pop!_OS 24.04 LTS"@, "Version 1.3.3 • Pop!_OS 24.04 LTS"@),
    {
        match self {
            Language::Es => "Versión 1.3.3 • Pop!_OS 24.04 LTS",
            Language::En => "Version 1.3.3 • Pop!_OS 24.04 LTS",
        }
    }

    pub fn about_details_title(&self) -> (r: &'static str)
        ensures
            r@ == self.pick("Detalles de la Aplicación"@, "Application Details"@),
    {
        match self {
            Language::Es => "Detalles de la Aplicación",
            Language::En => "Application Details",
        }
    }

    pub fn about_developer_lbl(&self) -> (r: &'static str)
        ensures
            r@ == self.pick("Desarrollador:"@, "Developer:"@),
    {
        match self {
            Language::Es => "Desarrollador:",
            Language::En => "Developer:",
        }
    }

    pub fn about_architecture_lbl(&self) -> (r: &'static str)
        ensures
            r@ == self.pick("Arquitectura:"@, "Architecture:"@),
    {
        match self {
            Language::Es => "Arquitectura:",
            Language::En => "Architecture:",
        }
    }

    pub fn about_license_lbl(&self) -> (r: &'static str)
        ensures
            r@ == self.pick("Licencia:"@, "License:"@),
    {
        match self {
            Language::Es => "Licencia:",
            Language::En => "License:",
        }
    }

    pub fn about_summary_desc(&self) -> (r: &'static str)
        ensures
            r@ == self.pick("Aura fue concebido para transformar la experiencia de fondos de pantalla animados en Linux. Aprovechando el poder nativo de Rust y libcosmic, ofrece un rendimiento fluido de 60 FPS con huella de memoria ultraligera, decodificación completa por GPU y sincronización automática de color."@, "Aura was engineered to redefine animated live wallpapers on Linux. Harnessing native Rust and libcosmic, it delivers smooth 60 FPS playback with minimal memory footprint, full GPU hardware acceleration, and dynamic cosmic color synchronization."@),
    {
        match self {
            Language::Es => "Aura fue concebido para transformar la experiencia de fondos de pantalla animados en Linux. Aprovechando el poder nativo de Rust y libcosmic, ofrece un rendimiento fluido de 60 FPS con huella de memoria ultraligera, decodificación completa por GPU y sincronización automática de color.",
            Language::En => "Aura was engineered to redefine animated live wallpapers on Linux. Harnessing native Rust and libcosmic, it delivers smooth 60 FPS playback with minimal memory footprint, full GPU hardware acceleration, and dynamic cosmic color synchronization.",
        }
    }

    pub fn about_github_btn(&self) -> (r: &'static str)
        ensures
            r@ == self.pick("Github"@, "Github"@),
    {
        match self {
            Language::Es => "Github",
            Language::En => "Github",
        }
    }

    pub fn about_youtube_btn(&self) -> (r: &'static str)
        ensures
            r@ == self.pick("YouTube"@, "YouTube"@),
    {
        match self {
            Language::Es => "YouTube",
            Language::En => "YouTube",
        }
    }

    pub fn about_donation_lbl(&self) -> (r: &'static str)
        ensures
            r@ == self.pick("Donaciones:"@, "Donations:"@),
    {
        match self {
            Language::Es => "Donaciones:",
            Language::En => "Donations:",
        }
    }

    pub fn about_donate_btn(&self) -> (r: &'static str)
        ensures
            r@ == self.pick("Donar (PayPal)"@, "Donate (PayPal)"@),
    {
        match self {
            Language::Es => "Donar (PayPal)",
            Language::En => "Donate (PayPal)",
        }
    }

    pub fn about_updates_title(&self) -> (r: &'static str)
        ensures
            r@ == self.pick("Actualizaciones de Software"@, "Software Updates"@),
    {
        match self {
            Language::Es => "Actualizaciones de Software",
            Language::En => "Software Updates",
        }
    }

    pub fn about_check_updates_btn(&self) -> (r: &'static str)
        ensures
            r@ == self.pick("Buscar actualizaciones"@, "Check for updates"@),
    {
        match self {
            Language::Es => "Buscar actualizaciones",
            Language::En => "Check for updates",
        }
    }

    pub fn about_checking_updates(&self) -> (r: &'static str)
        ensures
            r@ == self.pick("Buscando actualizaciones en GitHub..."@, "Checking for updates on GitHub..."@),
    {
        match self {
            Language::Es => "Buscando actualizaciones en GitHub...",
            Language::En => "Checking for updates on GitHub...",
        }
    }

    pub fn about_up_to_date(&self) -> (r: &'static str)
        ensures
            r@ == self.pick("Aura está al día con la última versión."@, "Aura is up to date."@),
    {
        match self {
            Language::Es => "Aura está al día con la última versión.",
            Language::En => "Aura is up to date.",
        }
    }

    pub fn about_update_available(&self) -> (r: &'static str)
        ensures
            r@ == self.pick("Nueva versión disponible:"@, "New version available:"@),
    {
        match self {
            Language::Es => "Nueva versión disponible:",
            Language::En => "New version available:",
        }
    }

    pub fn about_update_now_btn(&self) -> (r: &'static str)
        ensures
            r@ == self.pick("Actualizar a"@, "Update to"@),
    {
        match self {
            Language::Es => "Actualizar a",
            Language::En => "Update to",
        }
    }

    pub fn about_updating(&self) -> (r: &'static str)
        ensures
            r@ == self.pick("Descargando e instalando actualización..."@, "Downloading and installing update..."@),
    {
        match self {
            Language::Es => "Descargando e instalando actualización...",
            Language::En => "Downloading and installing update...",
        }
    }

    pub fn about_restart_btn(&self) -> (r: &'static str)
        ensures
            r@ == self.pick("Reiniciar Aura"@, "Restart Aura"@),
    {
        match self {
            Language::Es => "Reiniciar Aura",
            Language::En => "Restart Aura",
        }
    }

    pub fn about_flatpak_managed(&self) -> (r: &'static str)
        ensures
            r@ == self.pick("Versión Flatpak: las actualizaciones se gestionan automáticamente a través de COSMIC App Store o Flathub."@, "Flatpak edition: updates are managed via COSMIC App Store or Flathub."@),
    {
        match self {
            Language::Es => "Versión Flatpak: las actualizaciones se gestionan automáticamente a través de COSMIC App Store o Flathub.",
            Language::En => "Flatpak edition: updates are managed via COSMIC App Store or Flathub.",
        }
    }

    pub fn toast_update_available_action(&self) -> (r: &'static str)
        ensures
            r@ == self.pick("Actualizar"@, "Update"@),
    {
        match self {
            Language::Es => "Actualizar",
            Language::En => "Update",
        }
    }

    pub fn toast_restart_action(&self) -> (r: &'static str)
        ensures
            r@ == self.pick("Reiniciar"@, "Restart"@),
    {
        match self {
            Language::Es => "Reiniciar",
            Language::En => "Restart",
        }
    }

    pub fn explore_source_bing(&self) -> (r: &'static str)
        ensures
            r@ == self.pick("Bing del Día (4K)"@, "Bing Daily (4K)"@),
    {
        match self {
            Language::Es => "Bing del Día (4K)",
            Language::En => "Bing Daily (4K)",
        }
    }

    pub fn explore_source_wallhaven(&self) -> (r: &'static str)
        ensures
            r@ == self.pick("Wallhaven (Top 4K)"@, "Wallhaven (Top 4K)"@),
    {
        match self {
            Language::Es => "Wallhaven (Top 4K)",
            Language::En => "Wallhaven (Top 4K)",
        }
    }

    pub fn explore_btn_download(&self) -> (r: &'static str)
        ensures
            r@ == self.pick("Descargar"@, "Download"@),
    {
        match self {
            Language::Es => "Descargar",
            Language::En => "Download",
        }
    }

    pub fn explore_btn_downloading(&self) -> (r: &'static str)
        ensures
            r@ == self.pick("Descargando..."@, "Downloading..."@),
    {
        match self {
            Language::Es => "Descargando...",
            Language::En => "Downloading...",
        }
    }

    pub fn explore_btn_apply(&self) -> (r: &'static str)
        ensures
            r@ == self.pick("Aplicar"@, "Apply"@),
    {
        match self {
            Language::Es => "Aplicar",
            Language::En => "Apply",
        }
    }

    pub fn explore_badge_active(&self) -> (r: &'static str)
        ensures
            r@ == self.pick("En Uso"@, "Active"@),
    {
        match self {
            Language::Es => "En Uso",
            Language::En => "Active",
        }
    }

    pub fn explore_featured_today(&self) -> (r: &'static str)
        ensures
            r@ == self.pick("Foto destacada de hoy en 4K UHD"@, "Daily featured photo in 4K UHD"@),
    {
        match self {
            Language::Es => "Foto destacada de hoy en 4K UHD",
            Language::En => "Daily featured photo in 4K UHD",
        }
    }

    pub fn explore_recent_title(&self) -> (r: &'static str)
        ensures
            r@ == self.pick("Galería y archivo 4K"@, "4K gallery & archive"@),
    {
        match self {
            Language::Es => "Galería y archivo 4K",
            Language::En => "4K gallery & archive",
        }
    }

    pub fn explore_loading(&self) -> (r: &'static str)
        ensures
            r@ == self.pick("Cargando catálogo en línea..."@, "Loading online catalog..."@),
    {
        match self {
            Language::Es => "Cargando catálogo en línea...",
            Language::En => "Loading online catalog...",
        }
    }

    pub fn explore_error_prefix(&self) -> (r: &'static str)
        ensures
            r@ == self.pick("No se pudo conectar con el catálogo en línea:"@, "Could not connect to online catalog:"@),
    {
        match self {
            Language::Es => "No se pudo conectar con el catálogo en línea:",
            Language::En => "Could not connect to online catalog:",
        }
    }

    pub fn explore_btn_retry(&self) -> (r: &'static str)
        ensures
            r@ == self.pick("Reintentar conexión"@, "Retry connection"@),
    {
        match self {
            Language::Es => "Reintentar conexión",
            Language::En => "Retry connection",
        }
    }

    pub fn explore_toast_downloaded(&self) -> (r: &'static str)
        ensures
            r@ == self.pick("Fondo descargado con éxito"@, "Wallpaper downloaded successfully"@),
    {
        match self {
            Language::Es => "Fondo descargado con éxito",
            Language::En => "Wallpaper downloaded successfully",
        }
    }

    pub fn open_in_file_manager(&self) -> (r: &'static str)
        ensures
            r@ == self.pick("Abrir carpeta"@, "Open folder"@),
    {
        match self {
            Language::Es => "Abrir carpeta",
            Language::En => "Open folder",
        }
    }

    pub fn toast_show_in_files(&self) -> (r: &'static str)
        ensures
            r@ == self.pick("Ver en archivos"@, "Show in files"@),
    {
        match self {
            Language::Es => "Ver en archivos",
            Language::En => "Show in files",
        }
    }

    pub fn toast_folder_opened(&self) -> (r: &'static str)
        ensures
            r@ == self.pick("Carpeta de fondos abierta en el Gestor de Archivos"@, "Wallpapers folder opened in File Manager"@),
    {
        match self {
            Language::Es => "Carpeta de fondos abierta en el Gestor de Archivos",
            Language::En => "Wallpapers folder opened in File Manager",
        }
    }

    pub fn toast_folder_open_failed(&self) -> (r: &'static str)
        ensures
            r@ == self.pick("No se pudo abrir la carpeta en el Gestor de Archivos"@, "Could not open folder in File Manager"@),
    {
        match self {
            Language::Es => "No se pudo abrir la carpeta en el Gestor de Archivos",
            Language::En => "Could not open folder in File Manager",
        }
    }

    pub fn explore_btn_load_more(&self) -> (r: &'static str)
        ensures
            r@ == self.pick("Cargar más fondos"@, "Load more wallpapers"@),
    {
        match self {
            Language::Es => "Cargar más fondos",
            Language::En => "Load more wallpapers",
        }
    }

    pub fn explore_btn_loading_more(&self) -> (r: &'static str)
        ensures
            r@ == self.pick("Cargando más fondos..."@, "Loading more wallpapers..."@),
    {
        match self {
            Language::Es => "Cargando más fondos...",
            Language::En => "Loading more wallpapers...",
        }
    }

    pub fn explore_search_placeholder(&self) -> (r: &'static str)
        ensures
            r@ == self.pick("Buscar en Wallhaven (ej: anime, cyberpunk, nature)..."@, "Search Wallhaven (e.g. anime, cyberpunk, nature)..."@),
    {
        match self {
            Language::Es => "Buscar en Wallhaven (ej: anime, cyberpunk, nature)...",
            Language::En => "Search Wallhaven (e.g. anime, cyberpunk, nature)...",
        }
    }

    pub fn explore_cat_all(&self) -> (r: &'static str)
        ensures
            r@ == self.pick("Todos"@, "All"@),
    {
        match self {
            Language::Es => "Todos",
            Language::En => "All",
        }
    }

    pub fn explore_cat_anime(&self) -> (r: &'static str)
        ensures
            r@ == self.pick("Anime"@, "Anime"@),
    {
        match self {
            Language::Es => "Anime",
            Language::En => "Anime",
        }
    }

    pub fn explore_cat_general(&self) -> (r: &'static str)
        ensures
            r@ == self.pick("Naturaleza / General"@, "Nature / General"@),
    {
        match self {
            Language::Es => "Naturaleza / General",
            Language::En => "Nature / General",
        }
    }

    pub fn explore_sort_top(&self) -> (r: &'static str)
        ensures
            r@ == self.pick("Más Votados"@, "Top Rated"@),
    {
        match self {
            Language::Es => "Más Votados",
            Language::En => "Top Rated",
        }
    }

    pub fn explore_sort_hot(&self) -> (r: &'static str)
        ensures
            r@ == self.pick("Tendencias"@, "Hot"@),
    {
        match self {
            Language::Es => "Tendencias",
            Language::En => "Hot",
        }
    }

    pub fn explore_sort_random(&self) -> (r: &'static str)
        ensures
            r@ == self.pick("Aleatorio"@, "Random"@),
    {
        match self {
            Language::Es => "Aleatorio",
            Language::En => "Random",
        }
    }

    pub fn explore_res_all(&self) -> (r: &'static str)
        ensures
            r@ == self.pick("Resolución: Todas"@, "Resolution: All"@),
    {
        match self {
            Language::Es => "Resolución: Todas",
            Language::En => "Resolution: All",
        }
    }

    pub fn explore_res_4k(&self) -> (r: &'static str)
        ensures
            r@ == "4K UHD"@,
    {
        "4K UHD"
    }

    pub fn explore_res_2k(&self) -> (r: &'static str)
        ensures
            r@ == "2K QHD"@,
    {
        "2K QHD"
    }

    pub fn explore_res_ultrawide(&self) -> (r: &'static str)
        ensures
            r@ == "Ultrawide 21:9"@,
    {
        "Ultrawide 21:9"
    }

    pub fn tray_open(&self) -> (r: &'static str)
        ensures
            r@ == self.pick("Abrir Aura"@, "Open Aura"@),
    {
        match self {
            Language::Es => "Abrir Aura",
            Language::En => "Open Aura",
        }
    }

    pub fn tray_pause(&self) -> (r: &'static str)
        ensures
            r@ == self.pick("Pausar Fondo"@, "Pause Wallpaper"@),
    {
        match self {
            Language::Es => "Pausar Fondo",
            Language::En => "Pause Wallpaper",
        }
    }

    pub fn tray_resume(&self) -> (r: &'static str)
        ensures
            r@ == self.pick("Reanudar Fondo"@, "Resume Wallpaper"@),
    {
        match self {
            Language::Es => "Reanudar Fondo",
            Language::En => "Resume Wallpaper",
        }
    }

    pub fn tray_next(&self) -> (r: &'static str)
        ensures
            r@ == self.pick("Siguiente Fondo"@, "Next Wallpaper"@),
    {
        match self {
            Language::Es => "Siguiente Fondo",
            Language::En => "Next Wallpaper",
        }
    }

    pub fn tray_stop(&self) -> (r: &'static str)
        ensures
            r@ == self.pick("Detener Fondo"@, "Stop Wallpaper"@),
    {
        match self {
            Language::Es => "Detener Fondo",
            Language::En => "Stop Wallpaper",
        }
    }

    pub fn tray_quit(&self) -> (r: &'static str)
        ensures
            r@ == self.pick("Salir de Aura"@, "Quit Aura"@),
    {
        match self {
            Language::Es => "Salir de Aura",
            Language::En => "Quit Aura",
        }
    }

    pub fn tray_tooltip_idle(&self) -> (r: &'static str)
        ensures
            r@ == self.pick("Sin fondo en reproducción"@, "No wallpaper playing"@),
    {
        match self {
            Language::Es => "Sin fondo en reproducción",
            Language::En => "No wallpaper playing",
        }
    }

    pub fn tray_tooltip_playing(&self, name: &str) -> (r: String)
        ensures
            r@ == self.pick("Reproduciendo: "@ + name@, "Playing: "@ + name@),
    {
        match self {
            Language::Es => {
                let mut s = String::new();
                push_str(&mut s, "Reproduciendo: ");
                push_str(&mut s, name);
                s
            },
            Language::En => {
                let mut s = String::new();
                push_str(&mut s, "Playing: ");
                push_str(&mut s, name);
                s
            },
        }
    }

    pub fn status_lang_changed(&self) -> (r: &'static str)
        ensures
            r@ == self.pick("Idioma cambiado a Español"@, "Language switched to English"@),
    {
        match self {
            Language::Es => "Idioma cambiado a Español",
            Language::En => "Language switched to English",
        }
    }

    pub fn status_applied(&self, output: &str, name: &str) -> (r: String)
        ensures
            r@ == self.pick("Fondo aplicado en "@ + output@ + ": '"@ + name@ + "'"@, "Wallpaper applied on "@ + output@ + ": '"@ + name@ + "'"@),
    {
        match self {
            Language::Es => {
                let mut s = String::new();
                push_str(&mut s, "Fondo aplicado en ");
                push_str(&mut s, output);
                push_str(&mut s, ": '");
                push_str(&mut s, name);
                push_str(&mut s, "'");
                s
            },
            Language::En => {
                let mut s = String::new();
                push_str(&mut s, "Wallpaper applied on ");
                push_str(&mut s, output);
                push_str(&mut s, ": '");
                push_str(&mut s, name);
                push_str(&mut s, "'");
                s
            },
        }
    }

    pub fn status_paused(&self) -> (r: &'static str)
        ensures
            r@ == self.pick("Fondo pausado (0% GPU/CPU)"@, "Wallpaper paused (0% GPU/CPU)"@),
    {
        match self {
            Language::Es => "Fondo pausado (0% GPU/CPU)",
            Language::En => "Wallpaper paused (0% GPU/CPU)",
        }
    }

    pub fn status_resumed(&self) -> (r: &'static str)
        ensures
            r@ == self.pick("Fondo reanudado"@, "Wallpaper resumed"@),
    {
        match self {
            Language::Es => "Fondo reanudado",
            Language::En => "Wallpaper resumed",
        }
    }

    pub fn status_stopped_output(&self, output: &str) -> (r: String)
        ensures
            r@ == self.pick("Fondo detenido en "@ + output@, "Wallpaper stopped on "@ + output@),
    {
        match self {
            Language::Es => {
                let mut s = String::new();
                push_str(&mut s, "Fondo detenido en ");
                push_str(&mut s, output);
                s
            },
            Language::En => {
                let mut s = String::new();
                push_str(&mut s, "Wallpaper stopped on ");
                push_str(&mut s, output);
                s
            },
        }
    }

    pub fn status_stopped_all(&self) -> (r: &'static str)
        ensures
            r@ == self.pick("Todos los fondos han sido detenidos"@, "All wallpapers have been stopped"@),
    {
        match self {
            Language::Es => "Todos los fondos han sido detenidos",
            Language::En => "All wallpapers have been stopped",
        }
    }

    pub fn status_muted(&self) -> (r: &'static str)
        ensures
            r@ == self.pick("Audio silenciado"@, "Audio muted"@),
    {
        match self {
            Language::Es => "Audio silenciado",
            Language::En => "Audio muted",
        }
    }

    pub fn status_unmuted(&self) -> (r: &'static str)
        ensures
            r@ == self.pick("Audio activado"@, "Audio enabled"@),
    {
        match self {
            Language::Es => "Audio activado",
            Language::En => "Audio enabled",
        }
    }

    pub fn status_folder_removed(&self, folder: &str) -> (r: String)
        ensures
            r@ == self.pick("Carpeta eliminada: "@ + folder@, "Folder removed: "@ + folder@),
    {
        match self {
            Language::Es => {
                let mut s = String::new();
                push_str(&mut s, "Carpeta eliminada: ");
                push_str(&mut s, folder);
                s
            },
            Language::En => {
                let mut s = String::new();
                push_str(&mut s, "Folder removed: ");
                push_str(&mut s, folder);
                s
            },
        }
    }

    pub fn status_library_refreshed(&self) -> (r: &'static str)
        ensures
            r@ == self.pick("Biblioteca actualizada"@, "Library updated"@),
    {
        match self {
            Language::Es => "Biblioteca actualizada",
            Language::En => "Library updated",
        }
    }

    pub fn status_video_added(&self, name: &str) -> (r: String)
        ensures
            r@ == self.pick("Video añadido: "@ + name@, "Video added: "@ + name@),
    {
        match self {
            Language::Es => {
                let mut s = String::new();
                push_str(&mut s, "Video añadido: ");
                push_str(&mut s, name);
                s
            },
            Language::En => {
                let mut s = String::new();
                push_str(&mut s, "Video added: ");
                push_str(&mut s, name);
                s
            },
        }
    }

    pub fn status_folder_added(&self, folder: &str) -> (r: String)
        ensures
            r@ == self.pick("Carpeta añadida: "@ + folder@, "Folder added: "@ + folder@),
    {
        match self {
            Language::Es => {
                let mut s = String::new();
                push_str(&mut s, "Carpeta añadida: ");
                push_str(&mut s, folder);
                s
            },
            Language::En => {
                let mut s = String::new();
                push_str(&mut s, "Folder added: ");
                push_str(&mut s, folder);
                s
            },
        }
    }

    pub fn status_videos_dropped(&self) -> (r: &'static str)
        ensures
            r@ == self.pick("Videos añadidos a la biblioteca"@, "Videos added to library"@),
    {
        match self {
            Language::Es => "Videos añadidos a la biblioteca",
            Language::En => "Videos added to library",
        }
    }

    pub fn status_topology_updated(&self, count: usize) -> (r: String)
        ensures
            r@ == self.pick("Topología de pantallas actualizada ("@ + decimal(count as nat) + " monitores)"@, "Display topology updated ("@ + decimal(count as nat) + " displays)"@),
    {
        match self {
            Language::Es => {
                let mut s = String::new();
                push_str(&mut s, "Topología de pantallas actualizada (");
                push_decimal(&mut s, count as u64);
                push_str(&mut s, " monitores)");
                s
            },
            Language::En => {
                let mut s = String::new();
                push_str(&mut s, "Display topology updated (");
                push_decimal(&mut s, count as u64);
                push_str(&mut s, " displays)");
                s
            },
        }
    }

    pub fn status_game_paused(&self) -> (r: &'static str)
        ensures
            r@ == self.pick("Modo Juego: Fondo pausado para máximo rendimiento"@, "Game Mode: Wallpaper paused for maximum performance"@),
    {
        match self {
            Language::Es => "Modo Juego: Fondo pausado para máximo rendimiento",
            Language::En => "Game Mode: Wallpaper paused for maximum performance",
        }
    }

    pub fn status_game_resumed(&self) -> (r: &'static str)
        ensures
            r@ == self.pick("Juego minimizado: Fondo reanudado"@, "Game minimized: Wallpaper resumed"@),
    {
        match self {
            Language::Es => "Juego minimizado: Fondo reanudado",
            Language::En => "Game minimized: Wallpaper resumed",
        }
    }

    pub fn dialog_pick_video(&self) -> (r: &'static str)
        ensures
            r@ == self.pick("Seleccionar Video de Fondo"@, "Select Wallpaper Video"@),
    {
        match self {
            Language::Es => "Seleccionar Video de Fondo",
            Language::En => "Select Wallpaper Video",
        }
    }

    pub fn dialog_pick_folder(&self) -> (r: &'static str)
        ensures
            r@ == self.pick("Seleccionar Carpeta con Videos"@, "Select Folder with Videos"@),
    {
        match self {
            Language::Es => "Seleccionar Carpeta con Videos",
            Language::En => "Select Folder with Videos",
        }
    }

    pub fn library_btn_remove_custom(&self) -> (r: &'static str)
        ensures
            r@ == self.pick("Quitar"@, "Remove"@),
    {
        match self {
            Language::Es => "Quitar",
            Language::En => "Remove",
        }
    }

    pub fn library_btn_delete_download(&self) -> (r: &'static str)
        ensures
            r@ == self.pick("Eliminar"@, "Delete"@),
    {
        match self {
            Language::Es => "Eliminar",
            Language::En => "Delete",
        }
    }

    pub fn library_removed_toast(&self) -> (r: &'static str)
        ensures
            r@ == self.pick("Fondo quitado de la biblioteca"@, "Wallpaper removed from library"@),
    {
        match self {
            Language::Es => "Fondo quitado de la biblioteca",
            Language::En => "Wallpaper removed from library",
        }
    }

    pub fn library_target_output_label(&self) -> (r: &'static str)
        ensures
            r@ == self.pick("Pantalla destino:"@, "Target Display:"@),
    {
        match self {
            Language::Es => "Pantalla destino:",
            Language::En => "Target Display:",
        }
    }

    pub fn monitors_apply_to_this(&self) -> (r: &'static str)
        ensures
            r@ == self.pick("Elegir pantalla"@, "Select display"@),
    {
        match self {
            Language::Es => "Elegir pantalla",
            Language::En => "Select display",
        }
    }

    pub fn monitors_all_displays(&self) -> (r: &'static str)
        ensures
            r@ == self.pick("Todas las pantallas"@, "All Displays"@),
    {
        match self {
            Language::Es => "Todas las pantallas",
            Language::En => "All Displays",
        }
    }

    pub fn settings_rotation_title(&self) -> (r: &'static str)
        ensures
            r@ == self.pick("Rotación Automática de Fondos"@, "Playlist Auto-Rotation"@),
    {
        match self {
            Language::Es => "Rotación Automática de Fondos",
            Language::En => "Playlist Auto-Rotation",
        }
    }

    pub fn settings_rotation_desc(&self) -> (r: &'static str)
        ensures
            r@ == self.pick("Cambia periódicamente de fondo entre los elementos de la biblioteca"@, "Periodically switch wallpapers from your library collection"@),
    {
        match self {
            Language::Es => "Cambia periódicamente de fondo entre los elementos de la biblioteca",
            Language::En => "Periodically switch wallpapers from your library collection",
        }
    }

    pub fn settings_rotation_toggle(&self) -> (r: &'static str)
        ensures
            r@ == self.pick("Activar rotación automática"@, "Enable automatic rotation"@),
    {
        match self {
            Language::Es => "Activar rotación automática",
            Language::En => "Enable automatic rotation",
        }
    }

    pub fn status_rotation_enabled(&self) -> (r: &'static str)
        ensures
            r@ == self.pick("Rotación automática activada"@, "Automatic rotation enabled"@),
    {
        match self {
            Language::Es => "Rotación automática activada",
            Language::En => "Automatic rotation enabled",
        }
    }

    pub fn status_rotation_disabled(&self) -> (r: &'static str)
        ensures
            r@ == self.pick("Rotación automática desactivada"@, "Automatic rotation disabled"@),
    {
        match self {
            Language::Es => "Rotación automática desactivada",
            Language::En => "Automatic rotation disabled",
        }
    }

    pub fn settings_interval_label(&self) -> (r: &'static str)
        ensures
            r@ == self.pick("Intervalo de cambio:"@, "Switch Interval:"@),
    {
        match self {
            Language::Es => "Intervalo de cambio:",
            Language::En => "Switch Interval:",
        }
    }

    pub fn settings_order_label(&self) -> (r: &'static str)
        ensures
            r@ == self.pick("Orden de reproducción:"@, "Playback Order:"@),
    {
        match self {
            Language::Es => "Orden de reproducción:",
            Language::En => "Playback Order:",
        }
    }

    pub fn settings_order_random(&self) -> (r: &'static str)
        ensures
            r@ == self.pick("Aleatorio"@, "Random"@),
    {
        match self {
            Language::Es => "Aleatorio",
            Language::En => "Random",
        }
    }

    pub fn settings_order_seq(&self) -> (r: &'static str)
        ensures
            r@ == self.pick("Secuencial"@, "Sequential"@),
    {
        match self {
            Language::Es => "Secuencial",
            Language::En => "Sequential",
        }
    }

    pub fn settings_hwdec_title(&self) -> (r: &'static str)
        ensures
            r@ == self.pick("Aceleración de Hardware (GPU)"@, "Hardware Acceleration (GPU)"@),
    {
        match self {
            Language::Es => "Aceleración de Hardware (GPU)",
            Language::En => "Hardware Acceleration (GPU)",
        }
    }

    pub fn settings_hwdec_desc(&self) -> (r: &'static str)
        ensures
            r@ == self.pick("Configura el decodificador de video para mpv (VA-API / NVDEC)"@, "Configure the video hardware decoder for mpv (VA-API / NVDEC)"@),
    {
        match self {
            Language::Es => "Configura el decodificador de video para mpv (VA-API / NVDEC)",
            Language::En => "Configure the video hardware decoder for mpv (VA-API / NVDEC)",
        }
    }

    pub fn settings_battery_title(&self) -> (r: &'static str)
        ensures
            r@ == self.pick("Ahorro de Batería en Portátiles"@, "Laptop Battery Saver"@),
    {
        match self {
            Language::Es => "Ahorro de Batería en Portátiles",
            Language::En => "Laptop Battery Saver",
        }
    }

    pub fn settings_battery_desc(&self) -> (r: &'static str)
        ensures
            r@ == self.pick("Suspende automáticamente la reproducción al usar la batería del portátil"@, "Automatically suspend playback when running on laptop battery"@),
    {
        match self {
            Language::Es => "Suspende automáticamente la reproducción al usar la batería del portátil",
            Language::En => "Automatically suspend playback when running on laptop battery",
        }
    }

    pub fn status_battery_paused(&self) -> (r: &'static str)
        ensures
            r@ == self.pick("Ahorro de batería: Fondo pausado (0% GPU)"@, "Battery saver: Wallpaper paused (0% GPU)"@),
    {
        match self {
            Language::Es => "Ahorro de batería: Fondo pausado (0% GPU)",
            Language::En => "Battery saver: Wallpaper paused (0% GPU)",
        }
    }

    pub fn status_battery_resumed(&self) -> (r: &'static str)
        ensures
            r@ == self.pick("Alimentación por CA conectada: Fondo reanudado"@, "AC power connected: Wallpaper resumed"@),
    {
        match self {
            Language::Es => "Alimentación por CA conectada: Fondo reanudado",
            Language::En => "AC power connected: Wallpaper resumed",
        }
    }

    pub fn bar_volume(&self) -> (r: &'static str)
        ensures
            r@ == self.pick("Volumen"@, "Volume"@),
    {
        match self {
            Language::Es => "Volumen",
            Language::En => "Volume",
        }
    }
}

} // verus!
