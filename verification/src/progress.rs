//! The progress events that a start or restart reports, and their text.
//!
//! Events are reported in the order in which they are produced; the text of
//! each is what an observer is shown.

use crate::text::{decimal, decimal_digits, path_debug, quoted_path};
use vstd::prelude::*;

verus! {

/// Name of the stream on which the observer receives the text of each event.
pub const PROGRESS_CHANNEL: &'static str = "setup-progress";

/// One step of progress, as reported to the observer.
#[derive(Clone, Debug)]
pub enum ProgressEvent {
    /// Setup has begun.
    Initializing,
    /// The backend directory has been resolved.
    BackendResolved { dir: String },
    /// The interpreter that will run the backend has been chosen.
    InterpreterSelected { interpreter: String },
    /// The isolated environment is about to be created.
    CreatingEnvironment,
    /// The isolated environment has been created.
    EnvironmentCreated,
    /// The isolated environment could not be created; setup goes on.
    EnvironmentCreationFailed { detail: String },
    /// The isolated environment was already there.
    EnvironmentPresent,
    /// The installer was found and dependencies are about to be checked.
    CheckingDependencies,
    /// The installer is about to upgrade itself.
    UpgradingInstaller,
    /// The installer ran but reported that its upgrade failed; setup goes on.
    InstallerUpgradeWarning { detail: String },
    /// The installer could not be run for its upgrade; setup goes on.
    InstallerUpgradeFailed { reason: String },
    /// The dependency manifest is about to be installed.
    InstallingManifest,
    /// The dependency manifest has been installed.
    ManifestInstalled,
    /// The installer ran but reported a failure on the manifest; setup goes on.
    ManifestInstallWarning { detail: String },
    /// The installer could not be run on the manifest; setup goes on.
    ManifestInstallFailed { reason: String },
    /// The backend server is about to be started.
    Launching,
    /// The backend server has been started.
    Launched { pid: u32 },
    /// The backend server could not be started.
    LaunchFailed { reason: String },
}

/// The mathematical content of a [`ProgressEvent`].
pub enum ProgressEventView {
    Initializing,
    BackendResolved { dir: Seq<char> },
    InterpreterSelected { interpreter: Seq<char> },
    CreatingEnvironment,
    EnvironmentCreated,
    EnvironmentCreationFailed { detail: Seq<char> },
    EnvironmentPresent,
    CheckingDependencies,
    UpgradingInstaller,
    InstallerUpgradeWarning { detail: Seq<char> },
    InstallerUpgradeFailed { reason: Seq<char> },
    InstallingManifest,
    ManifestInstalled,
    ManifestInstallWarning { detail: Seq<char> },
    ManifestInstallFailed { reason: Seq<char> },
    Launching,
    Launched { pid: u32 },
    LaunchFailed { reason: Seq<char> },
}

impl View for ProgressEvent {
    type V = ProgressEventView;

    open spec fn view(&self) -> ProgressEventView {
        match self {
            ProgressEvent::Initializing => ProgressEventView::Initializing,
            ProgressEvent::BackendResolved { dir } => ProgressEventView::BackendResolved {
                dir: dir@,
            },
            ProgressEvent::InterpreterSelected {
                interpreter,
            } => ProgressEventView::InterpreterSelected { interpreter: interpreter@ },
            ProgressEvent::CreatingEnvironment => ProgressEventView::CreatingEnvironment,
            ProgressEvent::EnvironmentCreated => ProgressEventView::EnvironmentCreated,
            ProgressEvent::EnvironmentCreationFailed {
                detail,
            } => ProgressEventView::EnvironmentCreationFailed { detail: detail@ },
            ProgressEvent::EnvironmentPresent => ProgressEventView::EnvironmentPresent,
            ProgressEvent::CheckingDependencies => ProgressEventView::CheckingDependencies,
            ProgressEvent::UpgradingInstaller => ProgressEventView::UpgradingInstaller,
            ProgressEvent::InstallerUpgradeWarning {
                detail,
            } => ProgressEventView::InstallerUpgradeWarning { detail: detail@ },
            ProgressEvent::InstallerUpgradeFailed {
                reason,
            } => ProgressEventView::InstallerUpgradeFailed { reason: reason@ },
            ProgressEvent::InstallingManifest => ProgressEventView::InstallingManifest,
            ProgressEvent::ManifestInstalled => ProgressEventView::ManifestInstalled,
            ProgressEvent::ManifestInstallWarning {
                detail,
            } => ProgressEventView::ManifestInstallWarning { detail: detail@ },
            ProgressEvent::ManifestInstallFailed {
                reason,
            } => ProgressEventView::ManifestInstallFailed { reason: reason@ },
            ProgressEvent::Launching => ProgressEventView::Launching,
            ProgressEvent::Launched { pid } => ProgressEventView::Launched { pid: *pid },
            ProgressEvent::LaunchFailed { reason } => ProgressEventView::LaunchFailed {
                reason: reason@,
            },
        }
    }
}

impl DeepView for ProgressEvent {
    type V = ProgressEventView;

    open spec fn deep_view(&self) -> ProgressEventView {
        self@
    }
}

impl ProgressEventView {
    /// The text shown to the observer for this event.
    pub open spec fn text(self) -> Seq<char> {
        match self {
            ProgressEventView::Initializing => "🚀 백엔드 초기화 중..."@,
            ProgressEventView::BackendResolved { dir } => "📁 백엔드 경로: "@ + path_debug(dir),
            ProgressEventView::InterpreterSelected { interpreter } => "🐍 Python: "@
                + interpreter,
            ProgressEventView::CreatingEnvironment => "📦 가상환경 생성 중..."@,
            ProgressEventView::EnvironmentCreated => "✅ 가상환경 생성 완료"@,
            ProgressEventView::EnvironmentCreationFailed { detail } => "❌ 가상환경 생성 실패: "@
                + detail,
            ProgressEventView::EnvironmentPresent => "✅ 가상환경 확인됨"@,
            ProgressEventView::CheckingDependencies => "📦 의존성 확인 중..."@,
            ProgressEventView::UpgradingInstaller => "⬆️  pip 업그레이드 중..."@,
            ProgressEventView::InstallerUpgradeWarning { detail } => "⚠️  pip 업그레이드 경고: "@
                + detail,
            ProgressEventView::InstallerUpgradeFailed { reason } => "❌ pip 업그레이드 실패: "@
                + reason,
            ProgressEventView::InstallingManifest => "📥 Python 라이브러리 설치 중... (최초 실행 시 시간이 걸릴 수 있습니다)"@,
            ProgressEventView::ManifestInstalled => "✅ 의존성 설치 완료"@,
            ProgressEventView::ManifestInstallWarning { detail } => "⚠️  의존성 설치 경고: "@
                + detail,
            ProgressEventView::ManifestInstallFailed { reason } => "❌ 의존성 설치 실패: "@
                + reason,
            ProgressEventView::Launching => "🚀 백엔드 서버 시작 중..."@,
            ProgressEventView::Launched { pid } => "✅ 백엔드 시작 완료 (PID: "@ + decimal_digits(
                pid as nat,
            ) + ")"@,
            ProgressEventView::LaunchFailed { reason } => "❌ 백엔드 시작 실패: "@ + reason,
        }
    }
}

/// A fixed opening followed by a varying ending.
fn prefixed(opening: &str, ending: &str) -> (text: String)
    ensures
        text@ == opening@ + ending@,
{
    let mut text = String::from_str(opening);
    text.append(ending);
    text
}

impl ProgressEvent {
    /// Renders the text shown to the observer for this event.
    pub fn message(&self) -> (text: String)
        ensures
            text@ == self@.text(),
    {
        match self {
            ProgressEvent::Initializing => String::from_str("🚀 백엔드 초기화 중..."),
            ProgressEvent::BackendResolved { dir } => {
                let quoted = quoted_path(dir.as_str());
                prefixed("📁 백엔드 경로: ", quoted.as_str())
            },
            ProgressEvent::InterpreterSelected { interpreter } => prefixed(
                "🐍 Python: ",
                interpreter.as_str(),
            ),
            ProgressEvent::CreatingEnvironment => String::from_str("📦 가상환경 생성 중..."),
            ProgressEvent::EnvironmentCreated => String::from_str("✅ 가상환경 생성 완료"),
            ProgressEvent::EnvironmentCreationFailed { detail } => prefixed(
                "❌ 가상환경 생성 실패: ",
                detail.as_str(),
            ),
            ProgressEvent::EnvironmentPresent => String::from_str("✅ 가상환경 확인됨"),
            ProgressEvent::CheckingDependencies => String::from_str("📦 의존성 확인 중..."),
            ProgressEvent::UpgradingInstaller => String::from_str("⬆️  pip 업그레이드 중..."),
            ProgressEvent::InstallerUpgradeWarning { detail } => prefixed(
                "⚠️  pip 업그레이드 경고: ",
                detail.as_str(),
            ),
            ProgressEvent::InstallerUpgradeFailed { reason } => prefixed(
                "❌ pip 업그레이드 실패: ",
                reason.as_str(),
            ),
            ProgressEvent::InstallingManifest => String::from_str(
                "📥 Python 라이브러리 설치 중... (최초 실행 시 시간이 걸릴 수 있습니다)",
            ),
            ProgressEvent::ManifestInstalled => String::from_str("✅ 의존성 설치 완료"),
            ProgressEvent::ManifestInstallWarning { detail } => prefixed(
                "⚠️  의존성 설치 경고: ",
                detail.as_str(),
            ),
            ProgressEvent::ManifestInstallFailed { reason } => prefixed(
                "❌ 의존성 설치 실패: ",
                reason.as_str(),
            ),
            ProgressEvent::Launching => String::from_str("🚀 백엔드 서버 시작 중..."),
            ProgressEvent::Launched { pid } => {
                let numeral = decimal(*pid);
                let mut text = prefixed("✅ 백엔드 시작 완료 (PID: ", numeral.as_str());
                text.append(")");
                text
            },
            ProgressEvent::LaunchFailed { reason } => prefixed(
                "❌ 백엔드 시작 실패: ",
                reason.as_str(),
            ),
        }
    }
}

} // verus!
