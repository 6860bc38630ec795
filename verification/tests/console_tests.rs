use aura::config::Config;
use aura::console::{check_update_lines, help_lines, status_lines, update_outcome_lines, update_step, version_line, UpdateStep};

#[test]
fn version_and_help() {
    assert_eq!(version_line(), "Aura Live Wallpaper v1.3.3");
    let help = help_lines();
    assert_eq!(help.len(), 14);
    assert_eq!(help[0], "🌌 Aura — Gestor Nativo de Fondos Animados para COSMIC (Pop!_OS)");
    assert_eq!(help[1], "\nUso:");
    assert_eq!(help[3], "  aura next             Cambia al siguiente fondo de pantalla");
    assert!(help[13].starts_with("\nConsejo para COSMIC"));
}

#[test]
fn status_report_lists_screens_in_order() {
    let mut c = Config::default();
    c.current = Some("/v/a.mp4".to_string());
    c.wallpapers.insert("DP-1".to_string(), "/v/a.mp4".to_string());
    c.scaling.insert("DP-1".to_string(), "fill".to_string());
    c.wallpapers.insert("HDMI-A-1".to_string(), "/v/b.mp4".to_string());
    let lines = status_lines(&c, false);
    assert_eq!(
        lines,
        vec![
            "🌌 Aura Live Wallpaper — Estado del Sistema",
            "──────────────────────────────────────────",
            "Fondo activo: /v/a.mp4",
            "Pantallas configuradas:",
            "  • DP-1: /v/a.mp4 (Escala: fill)",
            "  • HDMI-A-1: /v/b.mp4 (Escala: fit)",
            "Auto-Tema COSMIC: Activado",
            "Silenciado: Sí",
            "Aceleración GPU: auto-safe",
            "Inicio automático: Desactivado",
        ]
    );
}

#[test]
fn status_report_without_wallpaper() {
    let mut c = Config::default();
    c.mute = false;
    c.auto_theme = false;
    let lines = status_lines(&c, true);
    assert_eq!(lines[2], "Fondo activo: Ninguno");
    assert_eq!(lines[3], "Pantallas configuradas:");
    assert_eq!(lines[4], "Auto-Tema COSMIC: Desactivado");
    assert_eq!(lines[5], "Silenciado: No");
    assert_eq!(lines[7], "Inicio automático: Activado");
    assert_eq!(lines.len(), 8);
}

#[test]
fn check_update_reports() {
    let newer = check_update_lines(Ok(("v1.4.0".to_string(), "Fixes\n".to_string(), None))).unwrap();
    assert_eq!(
        newer,
        vec![
            "🚀 ¡Nueva versión disponible! v1.3.3 -> v1.4.0",
            "\nNotas de la versión:\nFixes\n",
            "\nPara actualizar automáticamente ejecuta:\n  aura update",
        ]
    );
    let blank_notes = check_update_lines(Ok(("1.4.0".to_string(), "  \n ".to_string(), None))).unwrap();
    assert_eq!(blank_notes.len(), 2);
    assert_eq!(blank_notes[0], "🚀 ¡Nueva versión disponible! v1.3.3 -> 1.4.0");
    let same = check_update_lines(Ok(("v1.3.3".to_string(), String::new(), None))).unwrap();
    assert_eq!(same, vec!["✅ Tienes la versión más reciente (v1.3.3)."]);
    let older = check_update_lines(Ok(("v1.2.9".to_string(), String::new(), None))).unwrap();
    assert_eq!(older, vec!["✅ Tienes la versión más reciente (v1.3.3)."]);
    assert_eq!(check_update_lines(Err("boom".to_string())), Err("Error al buscar actualizaciones: boom".to_string()));
}

#[test]
fn update_steps() {
    match update_step(Err("offline".to_string())) {
        UpdateStep::CheckFailed(m) => assert_eq!(m, "No se pudo consultar actualizaciones: offline"),
        _ => panic!("expected a failed check"),
    }
    match update_step(Ok(("v1.3.3".to_string(), String::new(), Some("https://x/a.tar.gz".to_string())))) {
        UpdateStep::UpToDate(m) => assert_eq!(m, "✅ Ya tienes la última versión instalada (v1.3.3)."),
        _ => panic!("expected up to date"),
    }
    match update_step(Ok(("v2.0.0".to_string(), String::new(), None))) {
        UpdateStep::NoArchive(v) => assert_eq!(
            v,
            vec![
                "No se encontró un archivo precompilado compatible en la versión v2.0.0.",
                "Visita https://github.com/antwny/aura/releases para descargar manualmente.",
            ]
        ),
        _ => panic!("expected no archive"),
    }
    match update_step(Ok(("v2.0.0".to_string(), String::new(), Some("https://x/a.tar.gz".to_string())))) {
        UpdateStep::Download { url, message } => {
            assert_eq!(url, "https://x/a.tar.gz");
            assert_eq!(message, "Descargando versión v2.0.0 (actual: v1.3.3)...");
        }
        _ => panic!("expected a download"),
    }
}

#[test]
fn update_outcomes() {
    assert_eq!(
        update_outcome_lines("v2.0.0", Ok("/h/.local/bin/aura".to_string())),
        Ok(vec!["🎉 ¡Aura actualizada exitosamente a v2.0.0!".to_string(), "Ubicación: /h/.local/bin/aura".to_string()])
    );
    assert_eq!(update_outcome_lines("v2.0.0", Err("disk full".to_string())), Err("Error al actualizar: disk full".to_string()));
}
