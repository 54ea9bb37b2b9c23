use narrative_assistant::launcher::{
    backend_paths, build_launch_plan, env_assignments, python_executable, spawn_error_message,
    Platform, SpawnError,
};

/// The bundled paths on a POSIX layout.
#[test]
fn backend_paths_posix() {
    let paths = backend_paths(Platform::Linux, "/opt/app/resources");
    assert_eq!(paths.backend_root, "/opt/app/resources/binaries/backend");
    assert_eq!(paths.api_dir, "/opt/app/resources/binaries/backend/api-server");
    assert_eq!(
        paths.entry_point,
        "/opt/app/resources/binaries/backend/api-server/main.py"
    );
    assert_eq!(paths.python_dir, "/opt/app/resources/binaries/python-embed");
}

/// The bundled paths on Windows use backslashes.
#[test]
fn backend_paths_windows() {
    let paths = backend_paths(Platform::Windows, "C:\\app");
    assert_eq!(paths.backend_root, "C:\\app\\binaries\\backend");
    assert_eq!(paths.entry_point, "C:\\app\\binaries\\backend\\api-server\\main.py");
}

/// The interpreter path per platform, with and without the symlink.
#[test]
fn python_executable_per_platform() {
    assert_eq!(
        python_executable(Platform::Windows, "C:\\app", true),
        "C:\\app\\binaries\\python-embed\\python.exe"
    );
    assert_eq!(
        python_executable(Platform::Windows, "C:\\app", false),
        "C:\\app\\binaries\\python-embed\\python.exe"
    );
    assert_eq!(
        python_executable(Platform::MacOs, "/res", true),
        "/res/binaries/python-embed/python3"
    );
    assert_eq!(
        python_executable(Platform::MacOs, "/res", false),
        "/res/binaries/python-embed/bin/python3"
    );
    assert_eq!(
        python_executable(Platform::Linux, "/res", false),
        "/res/binaries/python-embed/bin/python3"
    );
}

/// A missing entry point refuses the launch and names the checked path.
#[test]
fn missing_entry_point_refused() {
    let r = build_launch_plan(Platform::Linux, "/res", true, false, true, None);
    match r {
        Err(SpawnError::MissingEntryPoint(path)) => {
            assert_eq!(path, "/res/binaries/backend/api-server/main.py");
            assert_eq!(
                spawn_error_message(&SpawnError::MissingEntryPoint(path)),
                "Archivo main.py no encontrado en /res/binaries/backend/api-server/main.py"
            );
        }
        _ => panic!("expected a missing entry point"),
    }
}

/// A missing interpreter refuses the launch and names the checked path.
#[test]
fn missing_runtime_refused() {
    let r = build_launch_plan(Platform::MacOs, "/res", false, true, false, None);
    match r {
        Err(SpawnError::MissingRuntime(path)) => {
            assert_eq!(path, "/res/binaries/python-embed/bin/python3");
            assert_eq!(
                spawn_error_message(&SpawnError::MissingRuntime(path)),
                "Python embebido no encontrado en /res/binaries/python-embed/bin/python3"
            );
        }
        _ => panic!("expected a missing runtime"),
    }
}

/// The OS spawn-failure message.
#[test]
fn spawn_failure_message() {
    assert_eq!(
        spawn_error_message(&SpawnError::SpawnFailed("permission denied".to_string())),
        "Failed to spawn backend process: permission denied"
    );
}

/// The full plan on Linux: search path without an inherited value, runtime
/// home at the runtime root, no loader path, no console suppression.
#[test]
fn launch_plan_linux() {
    let plan = build_launch_plan(Platform::Linux, "/res", true, true, true, None).unwrap();
    assert_eq!(plan.program, "/res/binaries/python-embed/python3");
    assert_eq!(plan.entry_point, "/res/binaries/backend/api-server/main.py");
    assert_eq!(plan.working_dir, "/res/binaries/backend/api-server");
    assert_eq!(
        plan.pythonpath,
        "/res/binaries/backend:/res/binaries/backend/api-server"
    );
    assert_eq!(plan.pythonhome, "/res/binaries/python-embed");
    assert!(plan.dyld_framework_path.is_none());
    assert!(!plan.suppress_console);
}

/// An inherited search path is appended, never dropped; an empty one counts
/// as absent.
#[test]
fn inherited_search_path_kept() {
    let plan =
        build_launch_plan(Platform::Linux, "/res", true, true, true, Some("/usr/lib/py")).unwrap();
    assert_eq!(
        plan.pythonpath,
        "/res/binaries/backend:/res/binaries/backend/api-server:/usr/lib/py"
    );
    let plan = build_launch_plan(Platform::Linux, "/res", true, true, true, Some("")).unwrap();
    assert_eq!(
        plan.pythonpath,
        "/res/binaries/backend:/res/binaries/backend/api-server"
    );
}

/// The Windows plan: semicolon separator, runtime home at the runtime root,
/// console suppression on.
#[test]
fn launch_plan_windows() {
    let plan =
        build_launch_plan(Platform::Windows, "C:\\app", false, true, true, Some("D:\\py")).unwrap();
    assert_eq!(plan.program, "C:\\app\\binaries\\python-embed\\python.exe");
    assert_eq!(
        plan.pythonpath,
        "C:\\app\\binaries\\backend;C:\\app\\binaries\\backend\\api-server;D:\\py"
    );
    assert_eq!(plan.pythonhome, "C:\\app\\binaries\\python-embed");
    assert!(plan.dyld_framework_path.is_none());
    assert!(plan.suppress_console);
}

/// The macOS plan: framework runtime home and the loader's framework path.
#[test]
fn launch_plan_macos() {
    let plan = build_launch_plan(Platform::MacOs, "/res", true, true, true, None).unwrap();
    assert_eq!(plan.program, "/res/binaries/python-embed/python3");
    assert_eq!(
        plan.pythonhome,
        "/res/binaries/python-embed/Python.framework/Versions/3.12"
    );
    assert_eq!(
        plan.dyld_framework_path.as_deref(),
        Some("/res/binaries/python-embed")
    );
    assert!(!plan.suppress_console);
}

/// The environment assignments of a plan, in order.
#[test]
fn env_assignments_per_platform() {
    let plan = build_launch_plan(Platform::Linux, "/res", true, true, true, None).unwrap();
    let env = env_assignments(&plan);
    assert_eq!(env.len(), 3);
    assert_eq!(env[0].0, "PYTHONPATH");
    assert_eq!(env[0].1, plan.pythonpath);
    assert_eq!(env[1].0, "PYTHONHOME");
    assert_eq!(env[1].1, plan.pythonhome);
    assert_eq!(env[2], ("NA_EMBEDDED".to_string(), "1".to_string()));

    let plan = build_launch_plan(Platform::MacOs, "/res", true, true, true, None).unwrap();
    let env = env_assignments(&plan);
    assert_eq!(env.len(), 4);
    assert_eq!(
        env[3],
        (
            "DYLD_FRAMEWORK_PATH".to_string(),
            "/res/binaries/python-embed".to_string()
        )
    );
}
