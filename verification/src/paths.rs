//! Where the backend lives and where its isolated environment keeps the
//! interpreter, the installer and the dependency manifest.
//!
//! Paths are plain text. Taking a parent and joining a component are left to
//! the standard library's `Path`, whose results are named here and never
//! spelled out: every contract of this module is stated over those names.
//! The names stand for what `Path` does with the path syntax of the platform
//! that the library is built for.

use crate::error::SetupError;
use crate::platform::{
    BuildMode, OsFamily, PlatformPaths, BACKEND_DIR, ENVIRONMENT_DIR, MANIFEST_FILE,
};
use vstd::prelude::*;

verus! {

/// What `std::path::Path::parent` yields for the path written as `path`:
/// the path without its last component, or `None` where there is none.
pub uninterp spec fn path_parent(path: Seq<char>) -> Option<Seq<char>>;

/// What `std::path::Path::join` yields for the path written as `base`,
/// extended by `tail`.
pub uninterp spec fn path_join(base: Seq<char>, tail: Seq<char>) -> Seq<char>;

/// Calls `std::path::Path::parent`. The contract only names the result: it is
/// `path_parent` of the text handed in, as text again. A parent of a path that
/// is valid Unicode is valid Unicode, so the conversion back loses nothing.
#[verifier::external_body]
fn parent_of(path: &str) -> (parent: Option<String>)
    ensures
        parent.deep_view() == path_parent(path@),
{
    match std::path::Path::new(path).parent() {
        Some(p) => Some(p.to_string_lossy().into_owned()),
        None => None,
    }
}

/// Calls `std::path::Path::join`. The contract only names the result: it is
/// `path_join` of the two texts handed in, as text again. Joining two paths
/// that are valid Unicode gives valid Unicode, so the conversion back loses
/// nothing.
#[verifier::external_body]
fn joined(base: &str, tail: &str) -> (path: String)
    ensures
        path@ == path_join(base@, tail@),
{
    std::path::Path::new(base).join(tail).to_string_lossy().into_owned()
}

/// What the host knows about where it runs. Either entry is `None` where the
/// operating system could not tell.
#[derive(Clone, Debug)]
pub struct HostContext {
    /// The current working directory.
    pub working_dir: Option<String>,
    /// The path of the running executable.
    pub executable: Option<String>,
}

/// The mathematical content of a [`HostContext`].
pub struct HostContextView {
    pub working_dir: Option<Seq<char>>,
    pub executable: Option<Seq<char>>,
}

impl View for HostContext {
    type V = HostContextView;

    open spec fn view(&self) -> HostContextView {
        HostContextView {
            working_dir: self.working_dir.deep_view(),
            executable: self.executable.deep_view(),
        }
    }
}

/// The environment the backend runs in, as one start found it. It is worked
/// out afresh for every start and restart.
#[derive(Clone, Debug)]
pub struct EnvironmentDescriptor {
    /// The resolved backend directory.
    pub backend_dir: String,
    /// The interpreter that runs the backend.
    pub interpreter: String,
    /// Whether the isolated interpreter was found.
    pub isolated_present: bool,
}

/// The mathematical content of an [`EnvironmentDescriptor`].
pub struct EnvironmentDescriptorView {
    pub backend_dir: Seq<char>,
    pub interpreter: Seq<char>,
    pub isolated_present: bool,
}

impl View for EnvironmentDescriptor {
    type V = EnvironmentDescriptorView;

    open spec fn view(&self) -> EnvironmentDescriptorView {
        EnvironmentDescriptorView {
            backend_dir: self.backend_dir@,
            interpreter: self.interpreter@,
            isolated_present: self.isolated_present,
        }
    }
}

/// The directory from which the backend directory is reached: two levels
/// above the working directory in development, the executable's directory in
/// production. `None` where the host could not name its starting point or an
/// ancestor does not exist.
pub open spec fn backend_anchor(mode: BuildMode, context: HostContextView) -> Option<Seq<char>> {
    match mode {
        BuildMode::Development => match context.working_dir {
            Some(dir) => match path_parent(dir) {
                Some(parent) => path_parent(parent),
                None => None,
            },
            None => None,
        },
        BuildMode::Production => match context.executable {
            Some(file) => path_parent(file),
            None => None,
        },
    }
}

/// The backend directory: the fixed backend name below the anchor.
pub open spec fn backend_dir_of(mode: BuildMode, context: HostContextView) -> Option<Seq<char>> {
    match backend_anchor(mode, context) {
        Some(anchor) => Some(path_join(anchor, BACKEND_DIR@)),
        None => None,
    }
}

/// The directory of executables inside the backend's isolated environment.
pub open spec fn executables_dir_of(os: OsFamily, backend_dir: Seq<char>) -> Seq<char> {
    path_join(path_join(backend_dir, ENVIRONMENT_DIR@), os.executables_dir_name())
}

/// Where the isolated environment keeps its interpreter.
pub open spec fn isolated_interpreter_of(os: OsFamily, backend_dir: Seq<char>) -> Seq<char> {
    path_join(executables_dir_of(os, backend_dir), os.interpreter_file_name())
}

/// Where the isolated environment keeps its package installer.
pub open spec fn installer_of(os: OsFamily, backend_dir: Seq<char>) -> Seq<char> {
    path_join(executables_dir_of(os, backend_dir), os.installer_file_name())
}

/// Where the backend keeps its dependency manifest.
pub open spec fn manifest_of(backend_dir: Seq<char>) -> Seq<char> {
    path_join(backend_dir, MANIFEST_FILE@)
}

/// The interpreter that runs the backend: the isolated one where it is
/// present, the system-wide one otherwise.
pub open spec fn interpreter_of(
    os: OsFamily,
    backend_dir: Seq<char>,
    isolated_present: bool,
) -> Seq<char> {
    if isolated_present {
        isolated_interpreter_of(os, backend_dir)
    } else {
        os.system_interpreter_name()
    }
}

/// The environment of a backend directory in which the isolated interpreter
/// was or was not found.
pub open spec fn environment_of(
    os: OsFamily,
    backend_dir: Seq<char>,
    isolated_present: bool,
) -> EnvironmentDescriptorView {
    EnvironmentDescriptorView {
        backend_dir,
        interpreter: interpreter_of(os, backend_dir, isolated_present),
        isolated_present,
    }
}

/// Finds the directory from which the backend directory is reached.
fn resolve_anchor(mode: BuildMode, context: &HostContext) -> (anchor: Option<String>)
    ensures
        anchor.deep_view() == backend_anchor(mode, context@),
{
    match mode {
        BuildMode::Development => match &context.working_dir {
            Some(dir) => match parent_of(dir.as_str()) {
                Some(parent) => parent_of(parent.as_str()),
                None => None,
            },
            None => None,
        },
        BuildMode::Production => match &context.executable {
            Some(file) => parent_of(file.as_str()),
            None => None,
        },
    }
}

/// Resolves the backend directory for a build mode and a host context.
///
/// Succeeds exactly when the anchor exists; the only failure is
/// [`SetupError::PathResolution`].
pub fn resolve_backend_dir(mode: BuildMode, context: &HostContext) -> (resolved: Result<
    String,
    SetupError,
>)
    ensures
        match resolved {
            Ok(dir) => backend_dir_of(mode, context@) == Some(dir@),
            Err(error) => backend_dir_of(mode, context@) is None && error@ is PathResolution,
        },
{
    match resolve_anchor(mode, context) {
        Some(anchor) => Ok(joined(anchor.as_str(), BACKEND_DIR)),
        None => Err(SetupError::PathResolution),
    }
}

/// The directory of executables inside the backend's isolated environment.
fn executables_dir(os: OsFamily, backend_dir: &str) -> (dir: String)
    ensures
        dir@ == executables_dir_of(os, backend_dir@),
{
    let environment = joined(backend_dir, ENVIRONMENT_DIR);
    joined(environment.as_str(), PlatformPaths::for_family(os).executables_dir)
}

/// Path of the interpreter inside the backend's isolated environment.
pub fn isolated_interpreter_path(os: OsFamily, backend_dir: &str) -> (path: String)
    ensures
        path@ == isolated_interpreter_of(os, backend_dir@),
{
    let dir = executables_dir(os, backend_dir);
    joined(dir.as_str(), PlatformPaths::for_family(os).interpreter_file)
}

/// Path of the package installer inside the backend's isolated environment.
pub fn installer_path(os: OsFamily, backend_dir: &str) -> (path: String)
    ensures
        path@ == installer_of(os, backend_dir@),
{
    let dir = executables_dir(os, backend_dir);
    joined(dir.as_str(), PlatformPaths::for_family(os).installer_file)
}

/// Path of the dependency manifest inside the backend directory.
pub fn manifest_path(backend_dir: &str) -> (path: String)
    ensures
        path@ == manifest_of(backend_dir@),
{
    joined(backend_dir, MANIFEST_FILE)
}

/// Chooses the interpreter that runs the backend: the isolated one where it
/// is present, the system-wide command otherwise.
pub fn select_interpreter(
    os: OsFamily,
    backend_dir: &str,
    isolated_present: bool,
) -> (interpreter: String)
    ensures
        interpreter@ == interpreter_of(os, backend_dir@, isolated_present),
        isolated_present ==> interpreter@ == isolated_interpreter_of(os, backend_dir@),
        !isolated_present ==> interpreter@ == os.system_interpreter_name(),
{
    if isolated_present {
        isolated_interpreter_path(os, backend_dir)
    } else {
        String::from_str(PlatformPaths::for_family(os).system_interpreter)
    }
}

/// Describes the environment of a backend directory in which the isolated
/// interpreter was or was not found.
pub fn describe_environment(
    os: OsFamily,
    backend_dir: &str,
    isolated_present: bool,
) -> (environment: EnvironmentDescriptor)
    ensures
        environment@ == environment_of(os, backend_dir@, isolated_present),
{
    EnvironmentDescriptor {
        backend_dir: String::from_str(backend_dir),
        interpreter: select_interpreter(os, backend_dir, isolated_present),
        isolated_present,
    }
}

} // verus!
