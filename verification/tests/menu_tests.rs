use std::collections::HashSet;

use narrative_assistant::menu::{
    all_menu_ids, analysis_menu, create_menu, file_menu, help_menu, view_menu, MenuElement,
};

/// Los IDs de menu deben ser unicos (sin duplicados)
#[test]
fn menu_ids_are_unique() {
    let mut seen = HashSet::new();
    for id in all_menu_ids() {
        assert!(seen.insert(id), "ID de menu duplicado: '{}'", id);
    }
}

/// Los IDs no deben estar vacios ni contener espacios
#[test]
fn menu_ids_are_valid_identifiers() {
    for id in all_menu_ids() {
        assert!(!id.is_empty(), "ID de menu vacio encontrado");
        assert!(!id.contains(' '), "ID de menu '{}' contiene espacios", id);
        assert!(
            id.chars().all(|c| c.is_ascii_alphanumeric() || c == '_'),
            "ID de menu '{}' contiene caracteres invalidos (solo a-z, 0-9, _)",
            id
        );
    }
}

/// El numero total de items de menu debe coincidir con lo esperado
/// (para detectar si se anade un item sin actualizar all_menu_ids y este test)
#[test]
fn menu_ids_count_matches_expected() {
    // 6 archivo + 10 ver + 1 analisis + 6 ayuda = 23
    assert_eq!(
        all_menu_ids().len(),
        23,
        "Se cambio el numero de items de menu. Actualizar ALL_MENU_IDS y este test."
    );
}

/// Verifica que los IDs esperados por el frontend estan presentes
#[test]
fn frontend_expected_ids_exist() {
    let ids: HashSet<&str> = all_menu_ids().into_iter().collect();

    // IDs que el frontend escucha en el listener de 'menu-event'
    let frontend_expects = [
        "new_project",
        "open_project",
        "close_project",
        "import",
        "export",
        "settings",
        "view_chapters",
        "view_entities",
        "view_alerts",
        "view_relationships",
        "view_timeline",
        "view_style",
        "view_glossary",
        "view_summary",
        "toggle_inspector",
        "toggle_sidebar",
        "run_analysis",
        "tutorial",
        "keyboard_shortcuts",
        "user_guide",
        "manage_data",
        "check_updates",
        "about",
    ];

    for expected_id in &frontend_expects {
        assert!(
            ids.contains(expected_id),
            "El frontend espera el ID '{}' pero no esta en ALL_MENU_IDS",
            expected_id
        );
    }
}

/// Verifica la organizacion por submodulos
#[test]
fn file_menu_ids_correct() {
    assert_eq!(file_menu::NEW_PROJECT, "new_project");
    assert_eq!(file_menu::OPEN_PROJECT, "open_project");
    assert_eq!(file_menu::CLOSE_PROJECT, "close_project");
    assert_eq!(file_menu::IMPORT, "import");
    assert_eq!(file_menu::EXPORT, "export");
    assert_eq!(file_menu::SETTINGS, "settings");
}

#[test]
fn view_menu_ids_correct() {
    assert_eq!(view_menu::CHAPTERS, "view_chapters");
    assert_eq!(view_menu::ENTITIES, "view_entities");
    assert_eq!(view_menu::RELATIONSHIPS, "view_relationships");
    assert_eq!(view_menu::ALERTS, "view_alerts");
    assert_eq!(view_menu::TIMELINE, "view_timeline");
    assert_eq!(view_menu::STYLE, "view_style");
    assert_eq!(view_menu::GLOSSARY, "view_glossary");
    assert_eq!(view_menu::SUMMARY, "view_summary");
    assert_eq!(view_menu::TOGGLE_INSPECTOR, "toggle_inspector");
    assert_eq!(view_menu::TOGGLE_SIDEBAR, "toggle_sidebar");
}

#[test]
fn analysis_menu_ids_correct() {
    assert_eq!(analysis_menu::RUN, "run_analysis");
}

#[test]
fn help_menu_ids_correct() {
    assert_eq!(help_menu::TUTORIAL, "tutorial");
    assert_eq!(help_menu::KEYBOARD_SHORTCUTS, "keyboard_shortcuts");
    assert_eq!(help_menu::USER_GUIDE, "user_guide");
    assert_eq!(help_menu::MANAGE_DATA, "manage_data");
    assert_eq!(help_menu::CHECK_UPDATES, "check_updates");
    assert_eq!(help_menu::ABOUT, "about");
}

/// La estructura del menu: cinco submenus con sus titulos, y los IDs
/// personalizados de cada submenu en orden visual.
#[test]
fn menu_structure_matches_layout() {
    let menu = create_menu();
    assert_eq!(menu.len(), 5);
    let titles: Vec<&str> = menu.iter().map(|s| s.title).collect();
    assert_eq!(titles, vec!["Archivo", "Edicion", "Ver", "Analisis", "Ayuda"]);

    let custom_ids = |idx: usize| -> Vec<&str> {
        menu[idx]
            .items
            .iter()
            .filter_map(|e| match e {
                MenuElement::Item(it) => Some(it.id),
                _ => None,
            })
            .collect()
    };
    assert_eq!(
        custom_ids(0),
        vec!["new_project", "open_project", "close_project", "import", "export", "settings"]
    );
    assert_eq!(custom_ids(1), vec!["find"]);
    assert_eq!(
        custom_ids(2),
        vec![
            "view_chapters",
            "view_entities",
            "view_relationships",
            "view_alerts",
            "view_timeline",
            "view_style",
            "view_glossary",
            "view_summary",
            "toggle_sidebar",
            "toggle_inspector"
        ]
    );
    assert_eq!(custom_ids(3), vec!["run_analysis"]);
    assert_eq!(
        custom_ids(4),
        vec![
            "tutorial",
            "keyboard_shortcuts",
            "user_guide",
            "manage_data",
            "check_updates",
            "about"
        ]
    );
}

/// Los atajos de pestanas siguen el patron Ctrl+1..8 en orden visual.
#[test]
fn view_tab_accelerators_are_sequential() {
    let menu = create_menu();
    let accelerators: Vec<Option<&str>> = menu[2]
        .items
        .iter()
        .filter_map(|e| match e {
            MenuElement::Item(it) => Some(it.accelerator),
            _ => None,
        })
        .take(8)
        .collect();
    let expected = vec![
        Some("CmdOrCtrl+1"),
        Some("CmdOrCtrl+2"),
        Some("CmdOrCtrl+3"),
        Some("CmdOrCtrl+4"),
        Some("CmdOrCtrl+5"),
        Some("CmdOrCtrl+6"),
        Some("CmdOrCtrl+7"),
        Some("CmdOrCtrl+8"),
    ];
    assert_eq!(accelerators, expected);
}
