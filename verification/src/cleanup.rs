//! Data-category management: listing the categories of data the application
//! keeps on disk, and planning the deletion of one category.
//!
//! The surrounding application measures directory sizes and existence and
//! executes deletion plans; which directories belong to which category, which
//! categories may be deleted at all, and what each answer says are decided
//! here.

use vstd::prelude::*;

use crate::launcher::{spec_path_sep, path_sep, Platform};

verus! {

/// A category of data stored on disk.
#[derive(Clone)]
pub struct DataCategory {
    /// Stable identifier of the category.
    pub id: String,
    /// Name shown in the UI.
    pub label: String,
    /// Short description shown in the UI.
    pub description: String,
    /// Absolute path of the category on disk.
    pub path: String,
    /// Size in bytes (0 when the directory does not exist).
    pub size_bytes: u64,
    /// Whether the directory is shared with other applications.
    pub is_shared: bool,
    /// Whether deleting the category destroys user data irreversibly.
    pub is_destructive: bool,
    /// Whether the directory exists on disk.
    pub exists: bool,
}

/// What the application measured on disk before the category table is built:
/// the resolved application-data directory and, per category, sizes and
/// existence.
pub struct DiskUsage {
    /// The application-data directory, resolved per platform from the OS.
    pub app_data_path: String,
    /// Total size of the application-data directory.
    pub app_data_size: u64,
    /// Whether the application-data directory exists.
    pub app_data_exists: bool,
    /// Size of the project database file.
    pub db_size: u64,
    /// Whether the project database file exists.
    pub db_exists: bool,
    /// Total size of the project data directory.
    pub data_dir_size: u64,
    /// Whether the project data directory exists.
    pub data_dir_exists: bool,
    /// Total size of the imported documents directory.
    pub documents_dir_size: u64,
    /// Total size of the language-model directory.
    pub models_size: u64,
    /// Whether the language-model directory exists.
    pub models_exists: bool,
    /// Total size of the shared Ollama directory.
    pub ollama_size: u64,
    /// Whether the shared Ollama directory exists.
    pub ollama_exists: bool,
    /// Total size of the shared HuggingFace cache.
    pub huggingface_size: u64,
    /// Whether the shared HuggingFace cache exists.
    pub huggingface_exists: bool,
}

/// The application's own dot-directory under the user's home.
pub open spec fn spec_na_dir(p: Platform, home: Seq<char>) -> Seq<char> {
    home + spec_path_sep(p) + ".narrative_assistant"@
}

/// The project database file.
pub open spec fn spec_db_file(p: Platform, home: Seq<char>) -> Seq<char> {
    spec_na_dir(p, home) + spec_path_sep(p) + "narrative_assistant.db"@
}

/// The project data directory.
pub open spec fn spec_data_dir(p: Platform, home: Seq<char>) -> Seq<char> {
    spec_na_dir(p, home) + spec_path_sep(p) + "data"@
}

/// The imported documents directory.
pub open spec fn spec_documents_dir(p: Platform, home: Seq<char>) -> Seq<char> {
    spec_na_dir(p, home) + spec_path_sep(p) + "documents"@
}

/// The language-model directory.
pub open spec fn spec_models_dir(p: Platform, home: Seq<char>) -> Seq<char> {
    spec_na_dir(p, home) + spec_path_sep(p) + "models"@
}

/// The shared Ollama directory under the user's home.
pub open spec fn spec_ollama_dir(p: Platform, home: Seq<char>) -> Seq<char> {
    home + spec_path_sep(p) + ".ollama"@
}

/// The shared HuggingFace cache under the user's home.
pub open spec fn spec_huggingface_dir(p: Platform, home: Seq<char>) -> Seq<char> {
    home + spec_path_sep(p) + ".cache"@ + spec_path_sep(p) + "huggingface"@
}

/// Append one path component to a directory.
fn join_component(dir: &String, p: Platform, name: &str) -> (r: String)
    ensures
        r@ == dir@ + spec_path_sep(p) + name@,
{
    let mut r = dir.clone();
    r.append(path_sep(p));
    r.append(name);
    r
}

/// Whether a string equals a given literal.
fn string_eq(a: &String, b: &str) -> (r: bool)
    ensures
        r == (a@ == b@),
{
    let bs = String::from_str(b);
    a.eq(&bs)
}

/// List the categories of data the application keeps on disk, with the sizes
/// and existence the application measured. The result always has the same
/// five categories in the same order; only the shared ones are marked shared,
/// and only the project data is marked destructive.
pub fn get_data_categories(p: Platform, home: &str, usage: &DiskUsage) -> (r: Vec<DataCategory>)
    ensures
        r@.len() == 5,
        r@[0].id@ == "app_cache"@,
        r@[0].label@ == "Datos de la aplicacion"@,
        r@[0].description@ == "Configuracion, cache, logs del WebView"@,
        r@[0].path@ == usage.app_data_path@,
        r@[0].size_bytes == usage.app_data_size,
        !r@[0].is_shared && !r@[0].is_destructive,
        r@[0].exists == usage.app_data_exists,
        r@[1].id@ == "user_data"@,
        r@[1].label@ == "Proyectos y base de datos"@,
        r@[1].description@ == "Proyectos, anotaciones, historial de cambios"@,
        r@[1].path@ == spec_na_dir(p, home@),
        r@[1].size_bytes == usage.db_size as int + usage.data_dir_size as int
            + usage.documents_dir_size as int || (r@[1].size_bytes == u64::MAX
            && usage.db_size + usage.data_dir_size + usage.documents_dir_size > u64::MAX),
        !r@[1].is_shared && r@[1].is_destructive,
        r@[1].exists == (usage.db_exists || usage.data_dir_exists),
        r@[2].id@ == "models"@,
        r@[2].label@ == "Modelos NLP"@,
        r@[2].description@ == "spaCy, sentence-transformers (se pueden volver a descargar)"@,
        r@[2].path@ == spec_models_dir(p, home@),
        r@[2].size_bytes == usage.models_size,
        !r@[2].is_shared && !r@[2].is_destructive,
        r@[2].exists == usage.models_exists,
        r@[3].id@ == "ollama"@,
        r@[3].label@ == "Ollama (compartido)"@,
        r@[3].description@ == "Modelos LLM - compartido con otras aplicaciones"@,
        r@[3].path@ == spec_ollama_dir(p, home@),
        r@[3].size_bytes == usage.ollama_size,
        r@[3].is_shared && !r@[3].is_destructive,
        r@[3].exists == usage.ollama_exists,
        r@[4].id@ == "huggingface"@,
        r@[4].label@ == "HuggingFace (compartido)"@,
        r@[4].description@ == "Cache de modelos - compartido con otras aplicaciones"@,
        r@[4].path@ == spec_huggingface_dir(p, home@),
        r@[4].size_bytes == usage.huggingface_size,
        r@[4].is_shared && !r@[4].is_destructive,
        r@[4].exists == usage.huggingface_exists,
{
    let home_string = String::from_str(home);
    let na = join_component(&home_string, p, ".narrative_assistant");
    let user_data_size = usage.db_size.saturating_add(usage.data_dir_size).saturating_add(
        usage.documents_dir_size,
    );

    let mut r: Vec<DataCategory> = Vec::new();
    r.push(DataCategory {
        id: String::from_str("app_cache"),
        label: String::from_str("Datos de la aplicacion"),
        description: String::from_str("Configuracion, cache, logs del WebView"),
        path: usage.app_data_path.clone(),
        size_bytes: usage.app_data_size,
        is_shared: false,
        is_destructive: false,
        exists: usage.app_data_exists,
    });
    r.push(DataCategory {
        id: String::from_str("user_data"),
        label: String::from_str("Proyectos y base de datos"),
        description: String::from_str("Proyectos, anotaciones, historial de cambios"),
        path: na.clone(),
        size_bytes: user_data_size,
        is_shared: false,
        is_destructive: true,
        exists: usage.db_exists || usage.data_dir_exists,
    });
    r.push(DataCategory {
        id: String::from_str("models"),
        label: String::from_str("Modelos NLP"),
        description: String::from_str(
            "spaCy, sentence-transformers (se pueden volver a descargar)",
        ),
        path: join_component(&na, p, "models"),
        size_bytes: usage.models_size,
        is_shared: false,
        is_destructive: false,
        exists: usage.models_exists,
    });
    r.push(DataCategory {
        id: String::from_str("ollama"),
        label: String::from_str("Ollama (compartido)"),
        description: String::from_str("Modelos LLM - compartido con otras aplicaciones"),
        path: join_component(&home_string, p, ".ollama"),
        size_bytes: usage.ollama_size,
        is_shared: true,
        is_destructive: false,
        exists: usage.ollama_exists,
    });
    let cache_dir = join_component(&home_string, p, ".cache");
    r.push(DataCategory {
        id: String::from_str("huggingface"),
        label: String::from_str("HuggingFace (compartido)"),
        description: String::from_str("Cache de modelos - compartido con otras aplicaciones"),
        path: join_component(&cache_dir, p, "huggingface"),
        size_bytes: usage.huggingface_size,
        is_shared: true,
        is_destructive: false,
        exists: usage.huggingface_exists,
    });
    r
}

/// One filesystem removal of a deletion plan.
pub enum DeleteAction {
    /// Remove a directory and everything under it; skip when absent.
    RemoveDirAll,
    /// Remove a single file; skip when absent.
    RemoveFile,
    /// Remove a directory only if it is empty.
    RemoveDirIfEmpty,
}

/// A step of a deletion plan: what to remove, and whether a failure aborts
/// the plan with an error built from the given prefix (`None` means the step
/// is best effort and failures are ignored).
pub struct DeleteStep {
    /// The removal to perform.
    pub action: DeleteAction,
    /// The path to remove.
    pub path: String,
    /// When present, a failure aborts the plan and the error shown is this
    /// prefix followed by the OS error text; when absent, failures are
    /// ignored.
    pub error_prefix: Option<String>,
}

/// A deletion plan: the removals to perform in order, and the message to
/// report when they are done.
pub struct DeletePlan {
    /// The removals, in order.
    pub steps: Vec<DeleteStep>,
    /// The message reported on success.
    pub success_message: String,
}

/// Plan the deletion of one data category. Only the application's own
/// categories can be deleted; the shared ones are refused, and so is an
/// unknown identifier.
pub fn delete_plan(id: &String, p: Platform, home: &str, app_data_path: &str) -> (r: Result<
    DeletePlan,
    String,
>)
    ensures
        id@ == "app_cache"@ ==> (r matches Ok(plan) && {
            &&& plan.steps@.len() == 1
            &&& plan.steps@[0].action is RemoveDirAll
            &&& plan.steps@[0].path@ == app_data_path@
            &&& plan.steps@[0].error_prefix matches Some(pre) && pre@ == "Error eliminando "@
                + app_data_path@ + ": "@
            &&& plan.success_message@ == "Datos de la aplicacion eliminados"@
        }),
        id@ == "user_data"@ ==> (r matches Ok(plan) && {
            &&& plan.steps@.len() == 6
            &&& plan.steps@[0].action is RemoveFile
            &&& plan.steps@[0].path@ == spec_db_file(p, home@)
            &&& plan.steps@[1].action is RemoveFile
            &&& plan.steps@[1].path@ == spec_db_file(p, home@) + "-shm"@
            &&& plan.steps@[2].action is RemoveFile
            &&& plan.steps@[2].path@ == spec_db_file(p, home@) + "-wal"@
            &&& plan.steps@[3].action is RemoveDirAll
            &&& plan.steps@[3].path@ == spec_data_dir(p, home@)
            &&& plan.steps@[4].action is RemoveDirAll
            &&& plan.steps@[4].path@ == spec_documents_dir(p, home@)
            &&& plan.steps@[5].action is RemoveDirIfEmpty
            &&& plan.steps@[5].path@ == spec_na_dir(p, home@)
            &&& forall|i: int| 0 <= i < 6 ==> plan.steps@[i].error_prefix is None
            &&& plan.success_message@ == "Proyectos y base de datos eliminados"@
        }),
        id@ == "models"@ ==> (r matches Ok(plan) && {
            &&& plan.steps@.len() == 2
            &&& plan.steps@[0].action is RemoveDirAll
            &&& plan.steps@[0].path@ == spec_models_dir(p, home@)
            &&& plan.steps@[0].error_prefix matches Some(pre) && pre@
                == "Error eliminando modelos: "@
            &&& plan.steps@[1].action is RemoveDirIfEmpty
            &&& plan.steps@[1].path@ == spec_na_dir(p, home@)
            &&& plan.steps@[1].error_prefix is None
            &&& plan.success_message@ == "Modelos NLP eliminados"@
        }),
        id@ == "ollama"@ || id@ == "huggingface"@ ==> (r matches Err(m) && m@
            == "Los directorios compartidos no se pueden eliminar automaticamente. Eliminelos manualmente si no los utiliza con otras aplicaciones."@),
        id@ != "app_cache"@ && id@ != "user_data"@ && id@ != "models"@ && id@ != "ollama"@ && id@
            != "huggingface"@ ==> (r matches Err(m) && m@ == "Categoria desconocida: "@ + id@),
{
    proof {
        reveal_strlit("app_cache");
        reveal_strlit("user_data");
        reveal_strlit("models");
        reveal_strlit("ollama");
        reveal_strlit("huggingface");
        assert("app_cache"@.len() == 9);
        assert("user_data"@.len() == 9);
        assert("models"@.len() == 6);
        assert("ollama"@.len() == 6);
        assert("huggingface"@.len() == 11);
        assert("app_cache"@[0] == 'a');
        assert("user_data"@[0] == 'u');
        assert("models"@[0] == 'm');
        assert("ollama"@[0] == 'o');
    }
    let home_string = String::from_str(home);
    let na = join_component(&home_string, p, ".narrative_assistant");

    if string_eq(id, "app_cache") {
        let path = String::from_str(app_data_path);
        let mut prefix = String::from_str("Error eliminando ");
        prefix.append(app_data_path);
        prefix.append(": ");
        let mut steps: Vec<DeleteStep> = Vec::new();
        steps.push(DeleteStep {
            action: DeleteAction::RemoveDirAll,
            path,
            error_prefix: Some(prefix),
        });
        Ok(DeletePlan {
            steps,
            success_message: String::from_str("Datos de la aplicacion eliminados"),
        })
    } else if string_eq(id, "user_data") {
        let db = join_component(&na, p, "narrative_assistant.db");
        let mut db_shm = db.clone();
        db_shm.append("-shm");
        let mut db_wal = db.clone();
        db_wal.append("-wal");
        let mut steps: Vec<DeleteStep> = Vec::new();
        steps.push(DeleteStep { action: DeleteAction::RemoveFile, path: db, error_prefix: None });
        steps.push(DeleteStep {
            action: DeleteAction::RemoveFile,
            path: db_shm,
            error_prefix: None,
        });
        steps.push(DeleteStep {
            action: DeleteAction::RemoveFile,
            path: db_wal,
            error_prefix: None,
        });
        steps.push(DeleteStep {
            action: DeleteAction::RemoveDirAll,
            path: join_component(&na, p, "data"),
            error_prefix: None,
        });
        steps.push(DeleteStep {
            action: DeleteAction::RemoveDirAll,
            path: join_component(&na, p, "documents"),
            error_prefix: None,
        });
        steps.push(DeleteStep {
            action: DeleteAction::RemoveDirIfEmpty,
            path: na,
            error_prefix: None,
        });
        Ok(DeletePlan {
            steps,
            success_message: String::from_str("Proyectos y base de datos eliminados"),
        })
    } else if string_eq(id, "models") {
        let mut steps: Vec<DeleteStep> = Vec::new();
        steps.push(DeleteStep {
            action: DeleteAction::RemoveDirAll,
            path: join_component(&na, p, "models"),
            error_prefix: Some(String::from_str("Error eliminando modelos: ")),
        });
        steps.push(DeleteStep {
            action: DeleteAction::RemoveDirIfEmpty,
            path: na,
            error_prefix: None,
        });
        Ok(DeletePlan { steps, success_message: String::from_str("Modelos NLP eliminados") })
    } else if string_eq(id, "ollama") || string_eq(id, "huggingface") {
        Err(
            String::from_str(
                "Los directorios compartidos no se pueden eliminar automaticamente. Eliminelos manualmente si no los utiliza con otras aplicaciones.",
            ),
        )
    } else {
        Err(String::from_str("Categoria desconocida: ").concat(id.as_str()))
    }
}

} // verus!
