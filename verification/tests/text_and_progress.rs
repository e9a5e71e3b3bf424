use backend_supervisor::progress::{ProgressEvent, PROGRESS_CHANNEL};
use backend_supervisor::text::decimal;

#[test]
fn decimal_of_zero() {
    assert_eq!(decimal(0), "0");
}

#[test]
fn decimal_of_single_digits() {
    assert_eq!(decimal(7), "7");
    assert_eq!(decimal(9), "9");
}

#[test]
fn decimal_of_round_numbers() {
    assert_eq!(decimal(10), "10");
    assert_eq!(decimal(100), "100");
    assert_eq!(decimal(1000000), "1000000");
}

#[test]
fn decimal_of_every_digit() {
    assert_eq!(decimal(1234567890), "1234567890");
}

#[test]
fn decimal_of_the_largest_value() {
    assert_eq!(decimal(u32::MAX), "4294967295");
}

#[test]
fn decimal_agrees_with_the_standard_library() {
    let mut n: u32 = 1;
    for _ in 0..200 {
        assert_eq!(decimal(n), n.to_string());
        n = n.wrapping_mul(48271).wrapping_add(11);
    }
}

#[test]
fn fixed_messages() {
    assert_eq!(ProgressEvent::Initializing.message(), "🚀 백엔드 초기화 중...");
    assert_eq!(ProgressEvent::CreatingEnvironment.message(), "📦 가상환경 생성 중...");
    assert_eq!(ProgressEvent::EnvironmentCreated.message(), "✅ 가상환경 생성 완료");
    assert_eq!(ProgressEvent::EnvironmentPresent.message(), "✅ 가상환경 확인됨");
    assert_eq!(ProgressEvent::CheckingDependencies.message(), "📦 의존성 확인 중...");
    assert_eq!(ProgressEvent::UpgradingInstaller.message(), "⬆️  pip 업그레이드 중...");
    assert_eq!(
        ProgressEvent::InstallingManifest.message(),
        "📥 Python 라이브러리 설치 중... (최초 실행 시 시간이 걸릴 수 있습니다)"
    );
    assert_eq!(ProgressEvent::ManifestInstalled.message(), "✅ 의존성 설치 완료");
    assert_eq!(ProgressEvent::Launching.message(), "🚀 백엔드 서버 시작 중...");
}

#[test]
fn backend_path_is_quoted() {
    let event = ProgressEvent::BackendResolved { dir: "/srv/app/backend".to_string() };
    assert_eq!(event.message(), "📁 백엔드 경로: \"/srv/app/backend\"");
}

#[test]
fn backend_path_is_escaped_as_a_path() {
    let event = ProgressEvent::BackendResolved { dir: "/srv/o'neil/a\"b\\c".to_string() };
    let expected = format!("📁 백엔드 경로: {:?}", std::path::Path::new("/srv/o'neil/a\"b\\c"));
    assert_eq!(event.message(), expected);
    assert!(event.message().contains("a\\\"b\\\\c"));
}

#[test]
fn interpreter_is_shown_as_it_is() {
    let event = ProgressEvent::InterpreterSelected { interpreter: "python3".to_string() };
    assert_eq!(event.message(), "🐍 Python: python3");
    let event = ProgressEvent::InterpreterSelected {
        interpreter: "/srv/app/backend/venv/bin/python3".to_string(),
    };
    assert_eq!(event.message(), "🐍 Python: /srv/app/backend/venv/bin/python3");
}

#[test]
fn failures_carry_their_detail() {
    let event = ProgressEvent::EnvironmentCreationFailed { detail: "\"no venv\"".to_string() };
    assert_eq!(event.message(), "❌ 가상환경 생성 실패: \"no venv\"");
    let event = ProgressEvent::InstallerUpgradeWarning { detail: "\"old\"".to_string() };
    assert_eq!(event.message(), "⚠️  pip 업그레이드 경고: \"old\"");
    let event = ProgressEvent::InstallerUpgradeFailed { reason: "denied".to_string() };
    assert_eq!(event.message(), "❌ pip 업그레이드 실패: denied");
    let event = ProgressEvent::ManifestInstallWarning { detail: "\"conflict\"".to_string() };
    assert_eq!(event.message(), "⚠️  의존성 설치 경고: \"conflict\"");
    let event = ProgressEvent::ManifestInstallFailed { reason: "denied".to_string() };
    assert_eq!(event.message(), "❌ 의존성 설치 실패: denied");
    let event = ProgressEvent::LaunchFailed { reason: "not found".to_string() };
    assert_eq!(event.message(), "❌ 백엔드 시작 실패: not found");
}

#[test]
fn launched_shows_the_process_identifier() {
    assert_eq!(ProgressEvent::Launched { pid: 4242 }.message(), "✅ 백엔드 시작 완료 (PID: 4242)");
    assert_eq!(ProgressEvent::Launched { pid: 0 }.message(), "✅ 백엔드 시작 완료 (PID: 0)");
}

#[test]
fn progress_channel_name() {
    assert_eq!(PROGRESS_CHANNEL, "setup-progress");
}
