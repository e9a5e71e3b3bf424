//! Operating-system families, build modes, and the names by which each
//! family knows the interpreter, its installer and the directory that holds
//! them inside an isolated environment.

use vstd::prelude::*;

verus! {

/// The operating-system family the supervisor runs on.
#[derive(Clone, Copy, Debug, PartialEq, Eq, Structural)]
pub enum OsFamily {
    Windows,
    Posix,
}

/// How the application was built, which decides where the backend lives.
#[derive(Clone, Copy, Debug, PartialEq, Eq, Structural)]
pub enum BuildMode {
    /// Run from the source tree: the backend sits two levels above the
    /// working directory.
    Development,
    /// Run as an installed application: the backend sits beside the
    /// executable.
    Production,
}

/// The file and command names that differ between operating-system families.
#[derive(Clone, Copy, Debug)]
pub struct PlatformPaths {
    /// Command that starts the system-wide interpreter.
    pub system_interpreter: &'static str,
    /// Directory, inside the isolated environment, that holds its executables.
    pub executables_dir: &'static str,
    /// File name of the isolated environment's interpreter.
    pub interpreter_file: &'static str,
    /// File name of the isolated environment's package installer.
    pub installer_file: &'static str,
}

/// Name of the backend directory below its anchor.
pub const BACKEND_DIR: &'static str = "backend";

/// Name of the isolated environment's directory below the backend directory.
pub const ENVIRONMENT_DIR: &'static str = "venv";

/// Name of the dependency manifest below the backend directory.
pub const MANIFEST_FILE: &'static str = "requirements.txt";

/// Name of the script that starts the backend server.
pub const ENTRY_POINT: &'static str = "main.py";

impl OsFamily {
    /// Command that starts the system-wide interpreter on this family.
    pub open spec fn system_interpreter_name(self) -> Seq<char> {
        match self {
            OsFamily::Windows => "python"@,
            OsFamily::Posix => "python3"@,
        }
    }

    /// Directory of executables inside an isolated environment.
    pub open spec fn executables_dir_name(self) -> Seq<char> {
        match self {
            OsFamily::Windows => "Scripts"@,
            OsFamily::Posix => "bin"@,
        }
    }

    /// File name of the interpreter inside an isolated environment.
    pub open spec fn interpreter_file_name(self) -> Seq<char> {
        match self {
            OsFamily::Windows => "python.exe"@,
            OsFamily::Posix => "python3"@,
        }
    }

    /// File name of the package installer inside an isolated environment.
    pub open spec fn installer_file_name(self) -> Seq<char> {
        match self {
            OsFamily::Windows => "pip.exe"@,
            OsFamily::Posix => "pip"@,
        }
    }
}

impl PlatformPaths {
    /// Whether this table holds exactly the names of family `os`.
    pub open spec fn describes(self, os: OsFamily) -> bool {
        &&& self.system_interpreter@ == os.system_interpreter_name()
        &&& self.executables_dir@ == os.executables_dir_name()
        &&& self.interpreter_file@ == os.interpreter_file_name()
        &&& self.installer_file@ == os.installer_file_name()
    }

    /// Looks up the names of one operating-system family.
    pub fn for_family(os: OsFamily) -> (paths: PlatformPaths)
        ensures
            paths.describes(os),
    {
        match os {
            OsFamily::Windows => PlatformPaths {
                system_interpreter: "python",
                executables_dir: "Scripts",
                interpreter_file: "python.exe",
                installer_file: "pip.exe",
            },
            OsFamily::Posix => PlatformPaths {
                system_interpreter: "python3",
                executables_dir: "bin",
                interpreter_file: "python3",
                installer_file: "pip",
            },
        }
    }
}

} // verus!
