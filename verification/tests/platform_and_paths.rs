use backend_supervisor::error::SetupError;
use backend_supervisor::paths::{
    describe_environment, installer_path, isolated_interpreter_path, manifest_path,
    resolve_backend_dir, select_interpreter, HostContext,
};
use backend_supervisor::platform::{
    BuildMode, OsFamily, PlatformPaths, BACKEND_DIR, ENTRY_POINT, ENVIRONMENT_DIR, MANIFEST_FILE,
};

fn context(working_dir: Option<&str>, executable: Option<&str>) -> HostContext {
    HostContext {
        working_dir: working_dir.map(|s| s.to_string()),
        executable: executable.map(|s| s.to_string()),
    }
}

#[test]
fn posix_names() {
    let paths = PlatformPaths::for_family(OsFamily::Posix);
    assert_eq!(paths.system_interpreter, "python3");
    assert_eq!(paths.executables_dir, "bin");
    assert_eq!(paths.interpreter_file, "python3");
    assert_eq!(paths.installer_file, "pip");
}

#[test]
fn windows_names() {
    let paths = PlatformPaths::for_family(OsFamily::Windows);
    assert_eq!(paths.system_interpreter, "python");
    assert_eq!(paths.executables_dir, "Scripts");
    assert_eq!(paths.interpreter_file, "python.exe");
    assert_eq!(paths.installer_file, "pip.exe");
}

#[test]
fn development_ascends_two_directories() {
    let host = context(Some("/srv/app/frontend/shell"), None);
    let dir = resolve_backend_dir(BuildMode::Development, &host).unwrap();
    assert_eq!(dir, "/srv/app/backend");
}

#[test]
fn development_ignores_the_executable() {
    let host = context(Some("/srv/app/frontend/shell"), Some("/opt/app/bin/app"));
    let dir = resolve_backend_dir(BuildMode::Development, &host).unwrap();
    assert_eq!(dir, "/srv/app/backend");
}

#[test]
fn production_sits_beside_the_executable() {
    let host = context(None, Some("/opt/app/bin/app"));
    let dir = resolve_backend_dir(BuildMode::Production, &host).unwrap();
    assert_eq!(dir, "/opt/app/bin/backend");
}

#[test]
fn production_ignores_the_working_directory() {
    let host = context(Some("/srv/app/frontend/shell"), Some("/opt/app/bin/app"));
    let dir = resolve_backend_dir(BuildMode::Production, &host).unwrap();
    assert_eq!(dir, "/opt/app/bin/backend");
}

#[test]
fn development_below_the_root_resolves_to_the_root() {
    let host = context(Some("/a/b"), None);
    let dir = resolve_backend_dir(BuildMode::Development, &host).unwrap();
    assert_eq!(dir, "/backend");
}

#[test]
fn development_fails_when_the_root_comes_too_soon() {
    let host = context(Some("/a"), None);
    let error = resolve_backend_dir(BuildMode::Development, &host).unwrap_err();
    assert!(matches!(error, SetupError::PathResolution));
    assert!(error.is_path_resolution());
}

#[test]
fn development_fails_at_the_root() {
    let host = context(Some("/"), None);
    let error = resolve_backend_dir(BuildMode::Development, &host).unwrap_err();
    assert!(matches!(error, SetupError::PathResolution));
}

#[test]
fn development_fails_without_a_working_directory() {
    let host = context(None, Some("/opt/app/bin/app"));
    let error = resolve_backend_dir(BuildMode::Development, &host).unwrap_err();
    assert!(matches!(error, SetupError::PathResolution));
}

#[test]
fn production_fails_without_an_executable() {
    let host = context(Some("/srv/app/frontend/shell"), None);
    let error = resolve_backend_dir(BuildMode::Production, &host).unwrap_err();
    assert!(matches!(error, SetupError::PathResolution));
}

#[test]
fn production_fails_for_an_executable_without_a_directory() {
    let host = context(None, Some("/"));
    let error = resolve_backend_dir(BuildMode::Production, &host).unwrap_err();
    assert!(matches!(error, SetupError::PathResolution));
    let host = context(None, Some(""));
    let error = resolve_backend_dir(BuildMode::Production, &host).unwrap_err();
    assert!(matches!(error, SetupError::PathResolution));
}

#[test]
fn relative_executable_resolves_beside_it() {
    let host = context(None, Some("app"));
    let dir = resolve_backend_dir(BuildMode::Production, &host).unwrap();
    assert_eq!(dir, "backend");
}

#[test]
fn posix_environment_layout() {
    assert_eq!(
        isolated_interpreter_path(OsFamily::Posix, "/srv/app/backend"),
        "/srv/app/backend/venv/bin/python3"
    );
    assert_eq!(
        installer_path(OsFamily::Posix, "/srv/app/backend"),
        "/srv/app/backend/venv/bin/pip"
    );
}

#[test]
fn windows_environment_layout() {
    let interpreter = isolated_interpreter_path(OsFamily::Windows, "app");
    let installer = installer_path(OsFamily::Windows, "app");
    let separator = std::path::MAIN_SEPARATOR;
    assert_eq!(
        interpreter,
        format!("app{0}venv{0}Scripts{0}python.exe", separator)
    );
    assert_eq!(installer, format!("app{0}venv{0}Scripts{0}pip.exe", separator));
}

#[test]
fn manifest_sits_in_the_backend_directory() {
    assert_eq!(manifest_path("/srv/app/backend"), "/srv/app/backend/requirements.txt");
}

#[test]
fn isolated_interpreter_is_chosen_when_present() {
    assert_eq!(
        select_interpreter(OsFamily::Posix, "/srv/app/backend", true),
        "/srv/app/backend/venv/bin/python3"
    );
}

#[test]
fn system_interpreter_is_chosen_when_isolated_is_absent() {
    assert_eq!(select_interpreter(OsFamily::Posix, "/srv/app/backend", false), "python3");
    assert_eq!(select_interpreter(OsFamily::Windows, "/srv/app/backend", false), "python");
}

#[test]
fn fixed_names() {
    assert_eq!(BACKEND_DIR, "backend");
    assert_eq!(ENVIRONMENT_DIR, "venv");
    assert_eq!(MANIFEST_FILE, "requirements.txt");
    assert_eq!(ENTRY_POINT, "main.py");
}

#[test]
fn environment_is_described_by_what_was_found() {
    let found = describe_environment(OsFamily::Posix, "/srv/app/backend", true);
    assert_eq!(found.backend_dir, "/srv/app/backend");
    assert_eq!(found.interpreter, "/srv/app/backend/venv/bin/python3");
    assert!(found.isolated_present);

    let missing = describe_environment(OsFamily::Windows, "/srv/app/backend", false);
    assert_eq!(missing.backend_dir, "/srv/app/backend");
    assert_eq!(missing.interpreter, "python");
    assert!(!missing.isolated_present);
}
