//! What the terminal commands print: the help, the version, the state of the
//! wallpapers, and the course of an update.
use vstd::prelude::*;
use crate::config::Config;
use crate::i18n::APP_VERSION;
use crate::online::bing::opt_view;
use crate::online::updater::{is_newer_version, newer};
use crate::state::updates::clean_tag;
use crate::strlist::{lemma_views_push, views};
use crate::text::{chars_of, concat2, owned, push_str, string_of, trim, trim_chars, trim_start_matches};

verus! {

/// Appends a line.
fn push_line(v: &mut Vec<String>, line: String)
    ensures
        views(final(v)@) == views(old(v)@).push(line@),
{
    let ghost before = v@;
    v.push(line);
    proof {
        lemma_views_push(before, line);
    }
}

/// The version line.
pub open spec fn version_text() -> Seq<char> {
    "Aura Live Wallpaper v"@ + APP_VERSION@
}

/// The version line: the program's name and version.
pub fn version_line() -> (r: String)
    ensures
        r@ == version_text(),
{
    concat2("Aura Live Wallpaper v", APP_VERSION)
}

/// The help, line by line.
pub open spec fn help_text() -> Seq<Seq<char>> {
    seq![
        "🌌 Aura — Gestor Nativo de Fondos Animados para COSMIC (Pop!_OS)"@,
        "\nUso:"@,
        "  aura                  Abre la interfaz gráfica de COSMIC"@,
        "  aura next             Cambia al siguiente fondo de pantalla"@,
        "  aura prev             Regresa al fondo anterior"@,
        "  aura stop             Detiene la reproducción de fondos"@,
        "  aura toggle-pause     Pausa o reanuda la reproducción (0% GPU al pausar)"@,
        "  aura apply <archivo>  Aplica inmediatamente un archivo de video"@,
        "  aura status           Muestra información del fondo y pantallas"@,
        "  aura check-update     Comprueba si hay una nueva versión en GitHub"@,
        "  aura update           Descarga e instala la última actualización"@,
        "  aura --version, -v    Muestra la versión de Aura"@,
        "  aura help             Muestra esta ayuda"@,
        "\nConsejo para COSMIC: Asigna 'aura next' a un atajo de teclado (ej. Super + W) en Ajustes."@
    ]
}

/// The help: the commands the program understands.
pub fn help_lines() -> (r: Vec<String>)
    ensures
        views(r@) == help_text(),
{
    let mut r: Vec<String> = Vec::new();
    push_line(&mut r, owned("🌌 Aura — Gestor Nativo de Fondos Animados para COSMIC (Pop!_OS)"));
    push_line(&mut r, owned("\nUso:"));
    push_line(&mut r, owned("  aura                  Abre la interfaz gráfica de COSMIC"));
    push_line(&mut r, owned("  aura next             Cambia al siguiente fondo de pantalla"));
    push_line(&mut r, owned("  aura prev             Regresa al fondo anterior"));
    push_line(&mut r, owned("  aura stop             Detiene la reproducción de fondos"));
    push_line(&mut r, owned("  aura toggle-pause     Pausa o reanuda la reproducción (0% GPU al pausar)"));
    push_line(&mut r, owned("  aura apply <archivo>  Aplica inmediatamente un archivo de video"));
    push_line(&mut r, owned("  aura status           Muestra información del fondo y pantallas"));
    push_line(&mut r, owned("  aura check-update     Comprueba si hay una nueva versión en GitHub"));
    push_line(&mut r, owned("  aura update           Descarga e instala la última actualización"));
    push_line(&mut r, owned("  aura --version, -v    Muestra la versión de Aura"));
    push_line(&mut r, owned("  aura help             Muestra esta ayuda"));
    push_line(&mut r, owned("\nConsejo para COSMIC: Asigna 'aura next' a un atajo de teclado (ej. Super + W) en Ajustes."));
    proof {
        assert(views(r@) =~= help_text());
    }
    r
}

/// A word for a switch.
pub open spec fn on_off(b: bool) -> Seq<char> {
    if b { "Activado"@ } else { "Desactivado"@ }
}

/// The line of a screen and its wallpaper, with the screen's scaling
/// (`fit` where none is set).
pub open spec fn screen_line(output: Seq<char>, wallpaper: Seq<char>, scaling: Map<Seq<char>, Seq<char>>) -> Seq<char> {
    "  • "@ + output + ": "@ + wallpaper + " (Escala: "@
        + (if scaling.dom().contains(output) { scaling[output] } else { "fit"@ }) + ")"@
}

/// The lines of the screens, in the order of the wallpaper entries.
pub open spec fn screen_lines(pairs: Seq<(Seq<char>, Seq<char>)>, scaling: Map<Seq<char>, Seq<char>>) -> Seq<Seq<char>>
    decreases pairs.len(),
{
    if pairs.len() == 0 {
        seq![]
    } else {
        screen_lines(pairs.drop_last(), scaling).push(screen_line(pairs.last().0, pairs.last().1, scaling))
    }
}

/// The state report: the active wallpaper, the wallpaper and scaling of each
/// screen, and the main switches.
pub open spec fn status_text(current: Option<Seq<char>>, pairs: Seq<(Seq<char>, Seq<char>)>,
    scaling: Map<Seq<char>, Seq<char>>, auto_theme: bool, mute: bool, hwdec: Seq<char>, autostart: bool) -> Seq<Seq<char>>
{
    seq![
        "🌌 Aura Live Wallpaper — Estado del Sistema"@,
        "──────────────────────────────────────────"@,
        "Fondo activo: "@ + match current { Some(c) => c, None => "Ninguno"@ },
        "Pantallas configuradas:"@
    ] + screen_lines(pairs, scaling) + seq![
        "Auto-Tema COSMIC: "@ + on_off(auto_theme),
        "Silenciado: "@ + (if mute { "Sí"@ } else { "No"@ }),
        "Aceleración GPU: "@ + hwdec,
        "Inicio automático: "@ + on_off(autostart)
    ]
}

fn on_off_exec(b: bool) -> (r: &'static str)
    ensures
        r@ == on_off(b),
{
    if b { "Activado" } else { "Desactivado" }
}

/// The state report of the settings, given whether the program starts with
/// the session.
pub fn status_lines(config: &Config, autostart_enabled: bool) -> (r: Vec<String>)
    requires
        config.wf(),
    ensures
        views(r@) == status_text(opt_view(config.current), config.wallpapers.pairs(), config.scaling@,
            config.auto_theme, config.mute, config.hwdec@, autostart_enabled),
{
    let mut r: Vec<String> = Vec::new();
    push_line(&mut r, owned("🌌 Aura Live Wallpaper — Estado del Sistema"));
    push_line(&mut r, owned("──────────────────────────────────────────"));
    let active = match &config.current {
        Some(c) => concat2("Fondo activo: ", c.as_str()),
        None => owned("Fondo activo: Ninguno"),
    };
    proof {
        reveal_strlit("Fondo activo: Ninguno");
        reveal_strlit("Fondo activo: ");
        reveal_strlit("Ninguno");
        assert("Fondo activo: Ninguno"@ =~= "Fondo activo: "@ + "Ninguno"@);
    }
    push_line(&mut r, active);
    push_line(&mut r, owned("Pantallas configuradas:"));
    let ghost head = views(r@);
    let pairs = config.wallpapers.to_pairs();
    let ghost all = config.wallpapers.pairs();
    for i in 0..pairs.len()
        invariant
            crate::strmap::pair_views(pairs@) == all,
            config.wf(),
            views(r@) == head + screen_lines(all.take(i as int), config.scaling@),
    {
        let sc = config.scaling.get_or(pairs[i].0.as_str(), "fit");
        let mut line = owned("  • ");
        push_str(&mut line, pairs[i].0.as_str());
        push_str(&mut line, ": ");
        push_str(&mut line, pairs[i].1.as_str());
        push_str(&mut line, " (Escala: ");
        push_str(&mut line, sc.as_str());
        push_str(&mut line, ")");
        proof {
            assert(all[i as int] == (pairs@[i as int].0@, pairs@[i as int].1@));
            assert(all.take(i + 1).drop_last() =~= all.take(i as int));
        }
        push_line(&mut r, line);
        proof {
            assert(head + screen_lines(all.take(i + 1), config.scaling@)
                =~= (head + screen_lines(all.take(i as int), config.scaling@)).push(line@));
        }
    }
    proof {
        assert(all.take(pairs@.len() as int) =~= all);
    }
    push_line(&mut r, concat2("Auto-Tema COSMIC: ", on_off_exec(config.auto_theme)));
    push_line(&mut r, concat2("Silenciado: ", if config.mute { "Sí" } else { "No" }));
    push_line(&mut r, concat2("Aceleración GPU: ", config.hwdec.as_str()));
    push_line(&mut r, concat2("Inicio automático: ", on_off_exec(autostart_enabled)));
    proof {
        assert(views(r@) =~= status_text(opt_view(config.current), all, config.scaling@,
            config.auto_theme, config.mute, config.hwdec@, autostart_enabled));
    }
    r
}


/// A release tag without its leading `v`s.
fn clean_release_tag(tag: &str) -> (r: String)
    ensures
        r@ == clean_tag(tag@),
{
    let tv = chars_of(tag);
    let v = chars_of("v");
    proof {
        reveal_strlit("v");
        assert(v@ =~= "v"@);
    }
    string_of(&trim_start_matches(&tv, &v))
}

/// What `check-update` prints for the answer of the release check: where
/// the release is newer, its tag, its notes when they are not blank, and how
/// to update; otherwise that the version is current. The error of a failed
/// check is printed on the error stream.
pub open spec fn check_update_text(result: Result<(Seq<char>, Seq<char>), Seq<char>>) -> Result<Seq<Seq<char>>, Seq<char>> {
    match result {
        Ok((tag, notes)) => if newer(clean_tag(tag), APP_VERSION@) {
            let head = seq!["🚀 ¡Nueva versión disponible! v"@ + APP_VERSION@ + " -> "@ + tag];
            let with_notes = if trim(notes).len() != 0 { head.push("\nNotas de la versión:\n"@ + notes) } else { head };
            Ok(with_notes.push("\nPara actualizar automáticamente ejecuta:\n  aura update"@))
        } else {
            Ok(seq!["✅ Tienes la versión más reciente (v"@ + APP_VERSION@ + ")."@])
        },
        Err(e) => Err("Error al buscar actualizaciones: "@ + e),
    }
}

/// The lines `check-update` prints for the answer of the release check (tag,
/// notes and download URL, or an error); an error becomes the line for the
/// error stream.
pub fn check_update_lines(result: Result<(String, String, Option<String>), String>) -> (r: Result<Vec<String>, String>)
    ensures
        match (r, check_update_text(match result { Ok((t, n, _)) => Ok((t@, n@)), Err(e) => Err(e@) })) {
            (Ok(v), Ok(w)) => views(v@) == w,
            (Err(e), Err(f)) => e@ == f,
            _ => false,
        },
{
    match result {
        Ok((tag, notes, _)) => {
            let clean = clean_release_tag(tag.as_str());
            let mut r: Vec<String> = Vec::new();
            if is_newer_version(clean.as_str(), APP_VERSION) {
                let mut head = owned("🚀 ¡Nueva versión disponible! v");
                push_str(&mut head, APP_VERSION);
                push_str(&mut head, " -> ");
                push_str(&mut head, tag.as_str());
                push_line(&mut r, head);
                let blank = trim_chars(&chars_of(notes.as_str())).len() == 0;
                if !blank {
                    push_line(&mut r, concat2("\nNotas de la versión:\n", notes.as_str()));
                }
                push_line(&mut r, owned("\nPara actualizar automáticamente ejecuta:\n  aura update"));
            } else {
                let mut line = owned("✅ Tienes la versión más reciente (v");
                push_str(&mut line, APP_VERSION);
                push_str(&mut line, ").");
                push_line(&mut r, line);
            }
            proof {
                let w = check_update_text(Ok((tag@, notes@)));
                assert(views(r@) =~= w->Ok_0);
            }
            Ok(r)
        },
        Err(e) => Err(concat2("Error al buscar actualizaciones: ", e.as_str())),
    }
}

/// The step `update` takes after the release check.
pub enum UpdateStep {
    /// The release query failed: the line for the error stream.
    CheckFailed(String),
    /// The installed version is current: the line to print.
    UpToDate(String),
    /// The release has no archive for this system: the lines to print.
    NoArchive(Vec<String>),
    /// The archive at `url` is downloaded, after `message` is printed.
    Download { url: String, message: String },
}

/// What `update` does with the answer of the release check: report a failed
/// check; stop when the release is not newer; stop when it has no archive;
/// else download the archive.
pub fn update_step(result: Result<(String, String, Option<String>), String>) -> (r: UpdateStep)
    ensures
        match result {
            Err(e) => r matches UpdateStep::CheckFailed(m) && m@ == "No se pudo consultar actualizaciones: "@ + e@,
            Ok((tag, _, url)) => if !newer(clean_tag(tag@), APP_VERSION@) {
                r matches UpdateStep::UpToDate(m) && m@ == "✅ Ya tienes la última versión instalada (v"@ + APP_VERSION@ + ")."@
            } else {
                match url {
                    None => r matches UpdateStep::NoArchive(v) && views(v@) == seq![
                        "No se encontró un archivo precompilado compatible en la versión "@ + tag@ + "."@,
                        "Visita https://github.com/antwny/aura/releases para descargar manualmente."@],
                    Some(u) => r matches UpdateStep::Download { url, message } && url == u
                        && message@ == "Descargando versión "@ + tag@ + " (actual: v"@ + APP_VERSION@ + ")..."@,
                }
            },
        },
{
    match result {
        Err(e) => UpdateStep::CheckFailed(concat2("No se pudo consultar actualizaciones: ", e.as_str())),
        Ok((tag, _, url)) => {
            let clean = clean_release_tag(tag.as_str());
            if !is_newer_version(clean.as_str(), APP_VERSION) {
                let mut m = owned("✅ Ya tienes la última versión instalada (v");
                push_str(&mut m, APP_VERSION);
                push_str(&mut m, ").");
                return UpdateStep::UpToDate(m);
            }
            match url {
                None => {
                    let mut v: Vec<String> = Vec::new();
                    let mut first = owned("No se encontró un archivo precompilado compatible en la versión ");
                    push_str(&mut first, tag.as_str());
                    push_str(&mut first, ".");
                    push_line(&mut v, first);
                    push_line(&mut v, owned("Visita https://github.com/antwny/aura/releases para descargar manualmente."));
                    proof {
                        assert(views(v@) =~= seq![
                            "No se encontró un archivo precompilado compatible en la versión "@ + tag@ + "."@,
                            "Visita https://github.com/antwny/aura/releases para descargar manualmente."@]);
                    }
                    UpdateStep::NoArchive(v)
                },
                Some(u) => {
                    let mut m = owned("Descargando versión ");
                    push_str(&mut m, tag.as_str());
                    push_str(&mut m, " (actual: v");
                    push_str(&mut m, APP_VERSION);
                    push_str(&mut m, ")...");
                    UpdateStep::Download { url: u, message: m }
                },
            }
        },
    }
}

/// What `update` prints once the download and install ended: the new tag
/// and where the program now is, or the error for the error stream.
pub fn update_outcome_lines(tag: &str, outcome: Result<String, String>) -> (r: Result<Vec<String>, String>)
    ensures
        match outcome {
            Ok(dest) => r matches Ok(v) && views(v@) == seq!["🎉 ¡Aura actualizada exitosamente a "@ + tag@ + "!"@, "Ubicación: "@ + dest@],
            Err(e) => r matches Err(m) && m@ == "Error al actualizar: "@ + e@,
        },
{
    match outcome {
        Ok(dest) => {
            let mut v: Vec<String> = Vec::new();
            let mut first = owned("🎉 ¡Aura actualizada exitosamente a ");
            push_str(&mut first, tag);
            push_str(&mut first, "!");
            push_line(&mut v, first);
            push_line(&mut v, concat2("Ubicación: ", dest.as_str()));
            proof {
                assert(views(v@) =~= seq!["🎉 ¡Aura actualizada exitosamente a "@ + tag@ + "!"@, "Ubicación: "@ + dest@]);
            }
            Ok(v)
        },
        Err(e) => Err(concat2("Error al actualizar: ", e.as_str())),
    }
}

}
