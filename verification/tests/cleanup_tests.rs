use narrative_assistant::cleanup::{
    delete_plan, get_data_categories, DeleteAction, DiskUsage,
};
use narrative_assistant::launcher::Platform;

fn usage() -> DiskUsage {
    DiskUsage {
        app_data_path: "/home/u/.local/share/Narrative Assistant".to_string(),
        app_data_size: 100,
        app_data_exists: true,
        db_size: 10,
        db_exists: true,
        data_dir_size: 20,
        data_dir_exists: false,
        documents_dir_size: 5,
        models_size: 4000,
        models_exists: true,
        ollama_size: 9000,
        ollama_exists: false,
        huggingface_size: 8000,
        huggingface_exists: true,
    }
}

/// The five categories, their identifiers, flags, paths and sizes.
#[test]
fn categories_are_complete() {
    let cats = get_data_categories(Platform::Linux, "/home/u", &usage());
    assert_eq!(cats.len(), 5);

    let ids: Vec<&str> = cats.iter().map(|c| c.id.as_str()).collect();
    assert_eq!(ids, vec!["app_cache", "user_data", "models", "ollama", "huggingface"]);

    assert_eq!(cats[0].label, "Datos de la aplicacion");
    assert_eq!(cats[0].path, "/home/u/.local/share/Narrative Assistant");
    assert_eq!(cats[0].size_bytes, 100);
    assert!(cats[0].exists);
    assert!(!cats[0].is_shared && !cats[0].is_destructive);

    assert_eq!(cats[1].label, "Proyectos y base de datos");
    assert_eq!(cats[1].path, "/home/u/.narrative_assistant");
    // Database plus data plus documents.
    assert_eq!(cats[1].size_bytes, 35);
    assert!(cats[1].exists, "the database alone makes the category exist");
    assert!(cats[1].is_destructive && !cats[1].is_shared);

    assert_eq!(cats[2].label, "Modelos NLP");
    assert_eq!(cats[2].path, "/home/u/.narrative_assistant/models");
    assert_eq!(cats[2].size_bytes, 4000);
    assert!(!cats[2].is_shared && !cats[2].is_destructive);

    assert_eq!(cats[3].label, "Ollama (compartido)");
    assert_eq!(cats[3].path, "/home/u/.ollama");
    assert!(cats[3].is_shared && !cats[3].is_destructive);
    assert!(!cats[3].exists);

    assert_eq!(cats[4].label, "HuggingFace (compartido)");
    assert_eq!(cats[4].path, "/home/u/.cache/huggingface");
    assert!(cats[4].is_shared && !cats[4].is_destructive);
    assert!(cats[4].exists);
}

/// Sizes saturate instead of wrapping when the parts exceed the type.
#[test]
fn user_data_size_saturates() {
    let mut u = usage();
    u.db_size = u64::MAX;
    u.data_dir_size = 7;
    let cats = get_data_categories(Platform::Linux, "/home/u", &u);
    assert_eq!(cats[1].size_bytes, u64::MAX);
}

/// Deleting the application data removes one directory tree, strictly.
#[test]
fn delete_app_cache_plan() {
    let plan = delete_plan(
        &"app_cache".to_string(),
        Platform::Linux,
        "/home/u",
        "/home/u/.local/share/Narrative Assistant",
    )
    .unwrap();
    assert_eq!(plan.steps.len(), 1);
    assert!(matches!(plan.steps[0].action, DeleteAction::RemoveDirAll));
    assert_eq!(plan.steps[0].path, "/home/u/.local/share/Narrative Assistant");
    assert_eq!(
        plan.steps[0].error_prefix.as_deref(),
        Some("Error eliminando /home/u/.local/share/Narrative Assistant: ")
    );
    assert_eq!(plan.success_message, "Datos de la aplicacion eliminados");
}

/// Deleting the project data removes the database files and both directories,
/// best effort, then the parent if empty.
#[test]
fn delete_user_data_plan() {
    let plan = delete_plan(&"user_data".to_string(), Platform::Linux, "/home/u", "/x").unwrap();
    assert_eq!(plan.steps.len(), 6);
    let paths: Vec<&str> = plan.steps.iter().map(|s| s.path.as_str()).collect();
    assert_eq!(
        paths,
        vec![
            "/home/u/.narrative_assistant/narrative_assistant.db",
            "/home/u/.narrative_assistant/narrative_assistant.db-shm",
            "/home/u/.narrative_assistant/narrative_assistant.db-wal",
            "/home/u/.narrative_assistant/data",
            "/home/u/.narrative_assistant/documents",
            "/home/u/.narrative_assistant",
        ]
    );
    assert!(matches!(plan.steps[0].action, DeleteAction::RemoveFile));
    assert!(matches!(plan.steps[1].action, DeleteAction::RemoveFile));
    assert!(matches!(plan.steps[2].action, DeleteAction::RemoveFile));
    assert!(matches!(plan.steps[3].action, DeleteAction::RemoveDirAll));
    assert!(matches!(plan.steps[4].action, DeleteAction::RemoveDirAll));
    assert!(matches!(plan.steps[5].action, DeleteAction::RemoveDirIfEmpty));
    assert!(plan.steps.iter().all(|s| s.error_prefix.is_none()));
    assert_eq!(plan.success_message, "Proyectos y base de datos eliminados");
}

/// Deleting the models removes their directory strictly, then the parent if
/// empty.
#[test]
fn delete_models_plan() {
    let plan = delete_plan(&"models".to_string(), Platform::Linux, "/home/u", "/x").unwrap();
    assert_eq!(plan.steps.len(), 2);
    assert!(matches!(plan.steps[0].action, DeleteAction::RemoveDirAll));
    assert_eq!(plan.steps[0].path, "/home/u/.narrative_assistant/models");
    assert_eq!(plan.steps[0].error_prefix.as_deref(), Some("Error eliminando modelos: "));
    assert!(matches!(plan.steps[1].action, DeleteAction::RemoveDirIfEmpty));
    assert_eq!(plan.steps[1].path, "/home/u/.narrative_assistant");
    assert!(plan.steps[1].error_prefix.is_none());
    assert_eq!(plan.success_message, "Modelos NLP eliminados");
}

/// Shared directories are never deleted.
#[test]
fn shared_categories_refused() {
    for id in ["ollama", "huggingface"] {
        let r = delete_plan(&id.to_string(), Platform::Linux, "/home/u", "/x");
        assert_eq!(
            r.err().unwrap(),
            "Los directorios compartidos no se pueden eliminar automaticamente. \
             Eliminelos manualmente si no los utiliza con otras aplicaciones."
        );
    }
}

/// An unknown category is refused by name.
#[test]
fn unknown_category_refused() {
    let r = delete_plan(&"caches".to_string(), Platform::Linux, "/home/u", "/x");
    assert_eq!(r.err().unwrap(), "Categoria desconocida: caches");
}
