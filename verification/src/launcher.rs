//! Launch-plan construction for the embedded backend.
//!
//! The backend is a script run by an embedded interpreter, both bundled under
//! a resource root. Which files are involved, the working directory, and the
//! child's environment are decided here, per target platform, from plain
//! values; the surrounding application answers the file-existence questions
//! and performs the spawn itself.

use vstd::prelude::*;

verus! {

/// Environment variable that tells the child its library search path.
pub const PYTHONPATH_VAR: &'static str = "PYTHONPATH";

/// Environment variable that tells the child its runtime home.
pub const PYTHONHOME_VAR: &'static str = "PYTHONHOME";

/// Environment variable that flags embedded mode to the child.
pub const EMBEDDED_MARKER_VAR: &'static str = "NA_EMBEDDED";

/// Value of the embedded-mode marker.
pub const EMBEDDED_MARKER_VALUE: &'static str = "1";

/// Environment variable for the dynamic loader's framework search path.
pub const DYLD_FRAMEWORK_PATH_VAR: &'static str = "DYLD_FRAMEWORK_PATH";

/// The target platforms the launcher distinguishes.
#[derive(Clone, Copy, Debug, PartialEq, Eq, Structural)]
pub enum Platform {
    /// Uses `\` in paths, `;` between search-path entries, a `python.exe`
    /// runtime, and suppresses console-window creation for the child.
    Windows,
    /// Uses a framework directory as the runtime home and sets the dynamic
    /// loader's framework search path.
    MacOs,
    /// Plain POSIX layout.
    Linux,
}

/// Why a launch could not proceed.
#[derive(Debug)]
pub enum SpawnError {
    /// The backend entry-point script is missing; the field is the path that
    /// was checked.
    MissingEntryPoint(String),
    /// The embedded runtime executable is missing; the field is the path that
    /// was checked.
    MissingRuntime(String),
    /// The operating system refused to create the process; the field is the
    /// OS error text.
    SpawnFailed(String),
}

/// Everything the application needs to spawn the backend: program, argument,
/// working directory, and environment. Both output streams are to be piped.
pub struct LaunchPlan {
    /// Path of the embedded interpreter to execute.
    pub program: String,
    /// Path of the backend entry-point script, passed as the argument.
    pub entry_point: String,
    /// Working directory for the child: the backend's own directory.
    pub working_dir: String,
    /// Value of the library-search-path variable: the backend's directories
    /// first, any inherited value appended, never dropped.
    pub pythonpath: String,
    /// Value of the runtime-home variable.
    pub pythonhome: String,
    /// Framework search path for the dynamic loader, when the platform needs
    /// one.
    pub dyld_framework_path: Option<String>,
    /// Whether console-window creation must be suppressed for the child.
    pub suppress_console: bool,
}

/// The path separator of a platform.
pub open spec fn spec_path_sep(p: Platform) -> Seq<char> {
    if p is Windows {
        "\\"@
    } else {
        "/"@
    }
}

/// The separator between entries of the library-search-path variable.
pub open spec fn spec_env_sep(p: Platform) -> Seq<char> {
    if p is Windows {
        ";"@
    } else {
        ":"@
    }
}

/// Root of the bundled backend: `<resources>/binaries/backend`.
pub open spec fn spec_backend_root(p: Platform, resource_dir: Seq<char>) -> Seq<char> {
    resource_dir + spec_path_sep(p) + "binaries"@ + spec_path_sep(p) + "backend"@
}

/// The backend's own directory: `<backend root>/api-server`.
pub open spec fn spec_api_dir(p: Platform, resource_dir: Seq<char>) -> Seq<char> {
    spec_backend_root(p, resource_dir) + spec_path_sep(p) + "api-server"@
}

/// The backend entry-point script: `<api dir>/main.py`.
pub open spec fn spec_entry_point(p: Platform, resource_dir: Seq<char>) -> Seq<char> {
    spec_api_dir(p, resource_dir) + spec_path_sep(p) + "main.py"@
}

/// Root of the embedded runtime: `<resources>/binaries/python-embed`.
pub open spec fn spec_python_dir(p: Platform, resource_dir: Seq<char>) -> Seq<char> {
    resource_dir + spec_path_sep(p) + "binaries"@ + spec_path_sep(p) + "python-embed"@
}

/// The embedded interpreter executable. On platforms other than Windows a
/// `python3` symlink at the runtime root is preferred; `bin/python3` is the
/// fallback when the symlink is absent.
pub open spec fn spec_python_exe(
    p: Platform,
    resource_dir: Seq<char>,
    symlink_exists: bool,
) -> Seq<char> {
    if p is Windows {
        spec_python_dir(p, resource_dir) + "\\"@ + "python.exe"@
    } else if symlink_exists {
        spec_python_dir(p, resource_dir) + "/"@ + "python3"@
    } else {
        spec_python_dir(p, resource_dir) + "/"@ + "bin/python3"@
    }
}

/// The backend's own search-path entries: its root, then its own directory.
pub open spec fn spec_pythonpath_base(p: Platform, resource_dir: Seq<char>) -> Seq<char> {
    spec_backend_root(p, resource_dir) + spec_env_sep(p) + spec_api_dir(p, resource_dir)
}

/// The runtime-home value: the framework versions directory on macOS, the
/// runtime root elsewhere.
pub open spec fn spec_pythonhome(p: Platform, resource_dir: Seq<char>) -> Seq<char> {
    if p is MacOs {
        spec_python_dir(p, resource_dir) + "/"@ + "Python.framework"@ + "/"@ + "Versions"@ + "/"@
            + "3.12"@
    } else {
        spec_python_dir(p, resource_dir)
    }
}

/// The path separator of a platform.
pub fn path_sep(p: Platform) -> (r: &'static str)
    ensures
        r@ == spec_path_sep(p),
{
    match p {
        Platform::Windows => "\\",
        Platform::MacOs => "/",
        Platform::Linux => "/",
    }
}

/// The separator between entries of the library-search-path variable.
pub fn env_sep(p: Platform) -> (r: &'static str)
    ensures
        r@ == spec_env_sep(p),
{
    match p {
        Platform::Windows => ";",
        Platform::MacOs => ":",
        Platform::Linux => ":",
    }
}

/// Append one path component to a directory.
fn push_component(dir: &mut String, p: Platform, name: &str)
    ensures
        final(dir)@ == old(dir)@ + spec_path_sep(p) + name@,
{
    dir.append(path_sep(p));
    dir.append(name);
}

/// The paths a launch depends on. The application checks these for existence
/// before the plan is built.
pub struct BackendPaths {
    /// Root of the bundled backend.
    pub backend_root: String,
    /// The backend's own directory.
    pub api_dir: String,
    /// The backend entry-point script.
    pub entry_point: String,
    /// Root of the embedded runtime.
    pub python_dir: String,
}

/// Resolve the bundled backend's paths under the resource root.
pub fn backend_paths(p: Platform, resource_dir: &str) -> (r: BackendPaths)
    ensures
        r.backend_root@ == spec_backend_root(p, resource_dir@),
        r.api_dir@ == spec_api_dir(p, resource_dir@),
        r.entry_point@ == spec_entry_point(p, resource_dir@),
        r.python_dir@ == spec_python_dir(p, resource_dir@),
{
    let mut backend_root = String::from_str(resource_dir);
    push_component(&mut backend_root, p, "binaries");
    push_component(&mut backend_root, p, "backend");
    let mut api_dir = backend_root.clone();
    push_component(&mut api_dir, p, "api-server");
    let mut entry_point = api_dir.clone();
    push_component(&mut entry_point, p, "main.py");
    let mut python_dir = String::from_str(resource_dir);
    push_component(&mut python_dir, p, "binaries");
    push_component(&mut python_dir, p, "python-embed");
    BackendPaths { backend_root, api_dir, entry_point, python_dir }
}

/// Resolve the embedded interpreter executable. `symlink_exists` answers
/// whether a `python3` symlink is present at the runtime root; it is ignored
/// on Windows.
pub fn python_executable(p: Platform, resource_dir: &str, symlink_exists: bool) -> (r: String)
    ensures
        r@ == spec_python_exe(p, resource_dir@, symlink_exists),
{
    let mut exe = String::from_str(resource_dir);
    push_component(&mut exe, p, "binaries");
    push_component(&mut exe, p, "python-embed");
    match p {
        Platform::Windows => {
            exe.append("\\");
            exe.append("python.exe");
        },
        _ => {
            if symlink_exists {
                exe.append("/");
                exe.append("python3");
            } else {
                exe.append("/");
                exe.append("bin/python3");
            }
        },
    }
    exe
}

/// Build the launch plan, or say which resource is missing.
///
/// `symlink_exists`, `entry_point_exists` and `python_exists` answer the
/// file-existence questions for the paths of `backend_paths` and
/// `python_executable`; `inherited_pythonpath` is the pre-existing value of
/// the library-search-path variable, which is appended after the backend's
/// own entries rather than dropped (an empty value counts as absent).
pub fn build_launch_plan(
    p: Platform,
    resource_dir: &str,
    symlink_exists: bool,
    entry_point_exists: bool,
    python_exists: bool,
    inherited_pythonpath: Option<&str>,
) -> (r: Result<LaunchPlan, SpawnError>)
    ensures
        !entry_point_exists ==> (r matches Err(SpawnError::MissingEntryPoint(path))
            && path@ == spec_entry_point(p, resource_dir@)),
        entry_point_exists && !python_exists ==> (r matches Err(SpawnError::MissingRuntime(path))
            && path@ == spec_python_exe(p, resource_dir@, symlink_exists)),
        entry_point_exists && python_exists ==> (r matches Ok(plan) && {
            &&& plan.program@ == spec_python_exe(p, resource_dir@, symlink_exists)
            &&& plan.entry_point@ == spec_entry_point(p, resource_dir@)
            &&& plan.working_dir@ == spec_api_dir(p, resource_dir@)
            &&& plan.pythonpath@ == match inherited_pythonpath {
                Some(inherited) => if inherited@.len() > 0 {
                    spec_pythonpath_base(p, resource_dir@) + spec_env_sep(p) + inherited@
                } else {
                    spec_pythonpath_base(p, resource_dir@)
                },
                None => spec_pythonpath_base(p, resource_dir@),
            }
            &&& plan.pythonhome@ == spec_pythonhome(p, resource_dir@)
            &&& if p is MacOs {
                plan.dyld_framework_path matches Some(d) && d@ == spec_python_dir(p, resource_dir@)
            } else {
                plan.dyld_framework_path is None
            }
            &&& plan.suppress_console == (p is Windows)
        }),
{
    let paths = backend_paths(p, resource_dir);
    if !entry_point_exists {
        return Err(SpawnError::MissingEntryPoint(paths.entry_point));
    }
    let python_exe = python_executable(p, resource_dir, symlink_exists);
    if !python_exists {
        return Err(SpawnError::MissingRuntime(python_exe));
    }

    let mut pythonpath = paths.backend_root.clone();
    pythonpath.append(env_sep(p));
    pythonpath.append(paths.api_dir.as_str());
    match inherited_pythonpath {
        Some(inherited) => {
            if !inherited.is_empty() {
                pythonpath.append(env_sep(p));
                pythonpath.append(inherited);
            }
        },
        None => {},
    }

    let pythonhome = match p {
        Platform::MacOs => {
            let mut home = paths.python_dir.clone();
            home.append("/");
            home.append("Python.framework");
            home.append("/");
            home.append("Versions");
            home.append("/");
            home.append("3.12");
            home
        },
        _ => paths.python_dir.clone(),
    };

    let dyld_framework_path = match p {
        Platform::MacOs => Some(paths.python_dir.clone()),
        _ => None,
    };

    Ok(LaunchPlan {
        program: python_exe,
        entry_point: paths.entry_point,
        working_dir: paths.api_dir,
        pythonpath,
        pythonhome,
        dyld_framework_path,
        suppress_console: matches!(p, Platform::Windows),
    })
}

/// The environment assignments a launch plan asks for, in order: the library
/// search path, the runtime home, the embedded-mode marker, and — when the
/// platform needs one — the dynamic loader's framework search path.
pub fn env_assignments(plan: &LaunchPlan) -> (r: Vec<(String, String)>)
    ensures
        plan.dyld_framework_path is None ==> r@.len() == 3,
        plan.dyld_framework_path is Some ==> r@.len() == 4 && r@[3].0@
            == "DYLD_FRAMEWORK_PATH"@ && r@[3].1@ == plan.dyld_framework_path->0@,
        r@[0].0@ == "PYTHONPATH"@ && r@[0].1@ == plan.pythonpath@,
        r@[1].0@ == "PYTHONHOME"@ && r@[1].1@ == plan.pythonhome@,
        r@[2].0@ == "NA_EMBEDDED"@ && r@[2].1@ == "1"@,
{
    let mut r: Vec<(String, String)> = Vec::new();
    r.push((String::from_str(PYTHONPATH_VAR), plan.pythonpath.clone()));
    r.push((String::from_str(PYTHONHOME_VAR), plan.pythonhome.clone()));
    r.push((String::from_str(EMBEDDED_MARKER_VAR), String::from_str(EMBEDDED_MARKER_VALUE)));
    match &plan.dyld_framework_path {
        Some(d) => {
            r.push((String::from_str(DYLD_FRAMEWORK_PATH_VAR), d.clone()));
        },
        None => {},
    }
    r
}

/// The human-readable message of a launch failure.
pub fn spawn_error_message(e: &SpawnError) -> (r: String)
    ensures
        e matches SpawnError::MissingEntryPoint(path) ==> r@
            == "Archivo main.py no encontrado en "@ + path@,
        e matches SpawnError::MissingRuntime(path) ==> r@
            == "Python embebido no encontrado en "@ + path@,
        e matches SpawnError::SpawnFailed(m) ==> r@
            == "Failed to spawn backend process: "@ + m@,
{
    match e {
        SpawnError::MissingEntryPoint(path) => String::from_str(
            "Archivo main.py no encontrado en ",
        ).concat(path.as_str()),
        SpawnError::MissingRuntime(path) => String::from_str(
            "Python embebido no encontrado en ",
        ).concat(path.as_str()),
        SpawnError::SpawnFailed(m) => String::from_str(
            "Failed to spawn backend process: ",
        ).concat(m.as_str()),
    }
}

} // verus!
