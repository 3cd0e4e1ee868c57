use waterui_cli::android::gradle_jvm_env;
use waterui_cli::run::{next_run_step, workspace_root, Platform, RunStep};
use waterui_cli::backend::{
    apple_current_release, apple_dev_branch, apple_dev_update, apple_release_settings, backend_change_precheck,
    parse_version, BackendChoice, BackendSettings, BackendUpdateStatus,
};
use waterui_cli::cli::devices::is_ios_runtime;
use waterui_cli::commands::{clean_step, CleanStep};
use waterui_cli::devices::{select_run_platform, DeviceInfo, DeviceKind, PlatformKind};

fn apple(dev: bool, version: Option<&str>, revision: Option<&str>, branch: Option<&str>) -> BackendSettings {
    BackendSettings {
        dev,
        version: version.map(str::to_string),
        revision: revision.map(str::to_string),
        branch: branch.map(str::to_string),
        project_path: "apple".to_string(),
    }
}

#[test]
fn clean_runs_with_yes_or_json() {
    assert_eq!(clean_step(3, false, false), CleanStep::AskFirst);
    assert_eq!(clean_step(3, true, false), CleanStep::RunAll);
    assert_eq!(clean_step(3, false, true), CleanStep::RunAll);
    assert_eq!(clean_step(0, true, true), CleanStep::AskFirst);
}

#[test]
fn backend_changes_refused_in_dev_mode_and_for_web() {
    let m = backend_change_precheck(&Some("../waterui".to_string()), BackendChoice::Apple, false).err().unwrap();
    assert_eq!(
        m,
        "Backend update is not available for projects using local dev mode.\n\nYour project is configured with a local WaterUI repository path at:\n  ../waterui\n\nIn local dev mode, backends are referenced directly from the WaterUI repository.\nTo update backends, simply pull the latest changes in your WaterUI repository:\n\ncd ../waterui\ngit pull\ngit submodule update --recursive"
    );
    let u = backend_change_precheck(&Some("w".to_string()), BackendChoice::Web, true).err().unwrap();
    assert!(u.starts_with("Backend upgrade is not available"));
    assert_eq!(
        backend_change_precheck(&None, BackendChoice::Web, false).err().unwrap(),
        "Web backend update is not supported yet. Please update the CLI when a new template is available."
    );
    assert_eq!(backend_change_precheck(&None, BackendChoice::Web, true).err().unwrap(), "Web backend upgrade is not supported yet.");
    assert!(backend_change_precheck(&None, BackendChoice::Android, true).is_ok());
}

#[test]
fn apple_dev_update_pins_the_revision() {
    let before = apple(false, Some("0.2.0"), Some("aaaaaaaaaaaa"), None);
    assert_eq!(apple_dev_branch(&before), "dev");
    let (saved, report) = apple_dev_update(&before, "bbbbbbbbbbbb");
    assert!(saved.dev);
    assert!(saved.version.is_none());
    assert_eq!(saved.revision.as_deref(), Some("bbbbbbbbbbbb"));
    assert_eq!(saved.branch.as_deref(), Some("dev"));
    assert_eq!(saved.project_path, "apple");
    assert_eq!(report.backend, "Apple");
    assert_eq!(report.status, BackendUpdateStatus::Updated);
    assert_eq!(report.from_version.as_deref(), Some("aaaaaaaaaaaa"));
    assert_eq!(report.to_version.as_deref(), Some("bbbbbbbbbbbb"));
    assert_eq!(report.message.as_deref(), Some("Apple dev backend updated (aaaaaaa → bbbbbbb)."));
    let (_, same) = apple_dev_update(&apple(true, None, Some("cccccccccc"), Some("main")), "cccccccccc");
    assert_eq!(same.status, BackendUpdateStatus::UpToDate);
}

#[test]
fn apple_release_settings_and_current_release() {
    assert_eq!(
        apple_current_release(&apple(false, None, None, None)).err().unwrap(),
        "Apple backend version is unknown. Re-create the backend to refresh metadata."
    );
    assert_eq!(
        apple_current_release(&apple(false, Some("banana"), None, None)).err().unwrap(),
        "failed to parse Apple backend version banana"
    );
    let (text, v) = apple_current_release(&apple(false, Some("0.2.1"), None, None)).ok().unwrap();
    assert_eq!(text, "0.2.1");
    assert_eq!((v.major, v.minor, v.patch), (0, 2, 1));
    let before = apple(true, None, Some("abc"), Some("dev"));
    let after = apple_release_settings(&before, &parse_version("0.2.4"));
    assert_eq!(after.version.as_deref(), Some("0.2.4"));
    assert!(!after.dev && after.branch.is_none() && after.revision.is_none());
    let kept = apple_release_settings(&before, &None);
    assert!(kept.dev);
    assert_eq!(kept.revision.as_deref(), Some("abc"));
}

fn device(name: &str, id: &str, platform: &str) -> DeviceInfo {
    DeviceInfo { name: name.to_string(), identifier: id.to_string(), platform: platform.to_string(), kind: DeviceKind::Simulator, state: None, raw_platform: None, detail: None }
}

#[test]
fn run_platform_from_named_device() {
    let devices = vec![device("iPhone 15", "A1", "iOS 17.2"), device("Pixel", "emulator-5554", "Android"), device("Odd", "X", "Fuchsia")];
    assert_eq!(select_run_platform(&devices, "iPhone 15").ok(), Some(PlatformKind::Ios));
    assert_eq!(select_run_platform(&devices, "emulator-5554").ok(), Some(PlatformKind::Android));
    assert_eq!(select_run_platform(&devices, "X").err().unwrap(), "Unsupported platform: Fuchsia");
    assert_eq!(
        select_run_platform(&devices, "Nope").err().unwrap(),
        "Device 'Nope' not found. Run `water devices` to list available targets."
    );
}

#[test]
fn ios_runtimes() {
    assert!(is_ios_runtime("com.apple.CoreSimulator.SimRuntime.iOS-17-2"));
    assert!(!is_ios_runtime("com.apple.CoreSimulator.SimRuntime.watchOS-10-2"));
}

#[test]
fn gradle_jvm_options_prefer_ipv4() {
    assert_eq!(
        gradle_jvm_env(None, Some(" -Xmx2g ".to_string())),
        vec![
            ("GRADLE_OPTS".to_string(), "-Djava.net.preferIPv4Stack=true".to_string()),
            ("JAVA_TOOL_OPTIONS".to_string(), "-Xmx2g -Djava.net.preferIPv4Stack=true".to_string()),
        ]
    );
    let already = gradle_jvm_env(Some("-Djava.net.preferIPv4Stack=true -Xmx1g".to_string()), Some(String::new()));
    assert_eq!(already[0].1, "-Djava.net.preferIPv4Stack=true -Xmx1g");
    assert_eq!(already[1].1, "-Djava.net.preferIPv4Stack=true");
}

#[test]
fn workspace_root_is_the_path_parent() {
    assert_eq!(workspace_root("foo"), "");
    assert_eq!(workspace_root("/repo/cli/"), "/repo");
    assert_eq!(workspace_root("a//b"), "a");
    let cases = [
        "/repo/cli", "/cli", "foo", "/repo/cli/", "a//b", "./a", "a/.", "..", ".", "./", "a/./b", "//a", "/a/b//", "a/b/./",
        "../x", "/.", "x/..",
    ];
    for case in cases {
        let expected = std::path::Path::new(case).parent().map(|p| p.to_str().unwrap().to_string());
        if let Some(parent) = expected {
            assert_eq!(workspace_root(case), parent, "parent of {case:?}");
        }
    }
}

fn walk(platform: Platform, no_hot_reload: bool) -> Vec<RunStep> {
    let mut steps = Vec::new();
    let mut step = RunStep::Begin;
    for _ in 0..10 {
        let (next, message) = next_run_step(platform, no_hot_reload, step, &Ok(()));
        assert!(message.is_none());
        if next == step {
            break;
        }
        steps.push(next);
        step = next;
    }
    steps
}

#[test]
fn run_steps_in_order() {
    assert_eq!(
        walk(Platform::Android, false),
        vec![
            RunStep::CheckToolchain,
            RunStep::ConfigureAndroidLinker,
            RunStep::AcquireLock,
            RunStep::StartServerBeforeLaunch,
            RunStep::Package,
            RunStep::RecordLastRun,
            RunStep::Watch,
        ]
    );
    assert_eq!(
        walk(Platform::Ios, false),
        vec![RunStep::CheckToolchain, RunStep::AcquireLock, RunStep::Package, RunStep::RecordLastRun, RunStep::StartServerAfterLaunch, RunStep::Watch]
    );
    assert_eq!(walk(Platform::Macos, true), vec![RunStep::CheckToolchain, RunStep::Package, RunStep::RecordLastRun, RunStep::Launched]);
    assert_eq!(walk(Platform::Web, false), vec![RunStep::CheckToolchain, RunStep::RunWeb]);
}

#[test]
fn run_steps_stop_on_failure() {
    let (next, message) = next_run_step(Platform::Ios, false, RunStep::CheckToolchain, &Err("  Xcode missing ".to_string()));
    assert_eq!(next, RunStep::Stopped);
    assert_eq!(message.unwrap(), "Toolchain not ready for Ios:\n\n  Xcode missing");
    let (next, message) = next_run_step(Platform::Android, false, RunStep::Package, &Err("gradle failed".to_string()));
    assert_eq!(next, RunStep::Stopped);
    assert_eq!(message.unwrap(), "gradle failed");
    let (next, message) = next_run_step(Platform::Android, false, RunStep::RecordLastRun, &Err("disk full".to_string()));
    assert_eq!(next, RunStep::Watch);
    assert!(message.is_none());
}
