use waterui_cli::device::ready_device_serials;
use waterui_cli::run::{configure_hot_reload_env, configure_mold};
use waterui_cli::commands::AvailablePermissionEntry;
use waterui_cli::android::android_package_fix;
use waterui_cli::run::{installed_rust_targets, macos_app_paths, rust_target_listed};
use waterui_cli::run::{sccache_choice, SccacheChoice};
use waterui_cli::create::xcode_package_reference;
use waterui_cli::templates::{android_local_properties, jni_lib_dirs};
use waterui_cli::commands::{doctor_follow_up, doctor_targets, progress_label, DoctorFollowUp, FixMode};
use waterui_cli::run::CheckTarget;
use waterui_cli::cli::build_cmd::{android_abi, build_heading, build_target, BuildTarget, TargetArch, TargetPlatform as BuildPlatform};
use waterui_cli::commands::{check_backend_absent, with_watch_path};
use waterui_cli::cli::run::{choose_android_target, choose_ios_simulator, device_event_output, hot_reload_event_output, AndroidPick, DeviceEvent, EventOutput, HotReloadEvent};
use waterui_cli::toolchain::Rust;
use waterui_cli::run::{hot_reload_watch_paths, inject_hot_reload_port, wasm_artifact, wasm_pack_args};
use waterui_cli::cli::devices::{android_device_lines, ios_simulator_lines};
use waterui_cli::create::git_failure_message;
use waterui_cli::run::toolchain_error_lines;
use waterui_cli::device::{android_capture_error, apple_capture_error, reported_avd_name, running_emulator_serials};
use waterui_cli::backend::{latest_release, parse_version, upgrade_report, BackendUpdateStatus, UpgradeOutcome};
use waterui_cli::android::{android_build_targets_value, check_android_target, clang_pp_choice, target_toolchain_env};
use waterui_cli::run::{cargo_build_args, cdylib_rustc_args, deps_dir, dev_profile_env, is_android_target};
use waterui_cli::run::{next_after_build, BuildNext};
use waterui_cli::run::is_cdylib_artifact;
use waterui_cli::templates::{root_template_destination, ManifestDep, TemplateContext};
use waterui_cli::run::{backtrace_frames, is_user_frame, panic_location_text, remote_log_line};
use waterui_cli::run::{socket_step, NativeDisconnectReason, SocketAction, SocketEvent};
use waterui_cli::android::{
    gradle_outputs, gradlew_executable, ndk_bin_candidates, pick_java_home, prepend_path_entry, sdk_local_properties,
};
use waterui_cli::backend::BackendChoice;
use waterui_cli::create::{
    android_backend_source, android_backend_version, android_template_context, android_template_files,
    check_create_mode, choose_backends, dev_commit_step, env_switch_enabled, swift_backend_entry,
    AndroidBackendSource, DevCommitStep, SwiftDependency,
};
use waterui_cli::devices::{apple_target_label, AndroidSelection, DeviceKind, PlatformKind};
use waterui_cli::run::{
    avd_names, check_run_again, check_run_platform, check_run_request, launch_activity, plan_run, playground_backend,
    preferred_simulator, replay_request, simctl_launch_args, simulator_app_bundle, simulator_destination,
    simulator_option_label, simulator_target, toolchain_not_ready_message, xcode_project_file, xcodebuild_args,
    LastRun, Platform, RunPlan, RunRequest,
};

fn s(v: &str) -> String {
    v.to_string()
}

fn request() -> RunRequest {
    RunRequest {
        platform: None,
        device: None,
        release: false,
        no_sccache: false,
        mold: false,
        no_hot_reload: false,
        log_filter: None,
    }
}

#[test]
fn toolchain_message_indents_report() {
    assert_eq!(toolchain_not_ready_message(Platform::Ios, "  \n "), "Toolchain not ready for Ios.");
    assert_eq!(
        toolchain_not_ready_message(Platform::Android, "\nNDK missing\nadb missing\n"),
        "Toolchain not ready for Android:\n\n  NDK missing\n  adb missing"
    );
}

#[test]
fn run_plan_by_platform() {
    assert_eq!(plan_run(Platform::Android, false), RunPlan { hot_reload: true, server_before_launch: true });
    assert_eq!(plan_run(Platform::Android, true), RunPlan { hot_reload: false, server_before_launch: false });
    assert_eq!(plan_run(Platform::Ios, false), RunPlan { hot_reload: true, server_before_launch: false });
    assert_eq!(plan_run(Platform::Web, false), RunPlan { hot_reload: false, server_before_launch: false });
}

#[test]
fn playground_backends_and_watchos() {
    assert_eq!(playground_backend(Platform::Web), Ok(BackendChoice::Web));
    assert_eq!(playground_backend(Platform::Visionos), Ok(BackendChoice::Apple));
    assert_eq!(playground_backend(Platform::Android), Ok(BackendChoice::Android));
    assert_eq!(playground_backend(Platform::Watchos), Err(s("Platform Watchos is not supported in playground mode")));
    assert_eq!(check_run_platform(Platform::Watchos), Err(s("watchOS backend is not supported yet.")));
    assert_eq!(check_run_platform(Platform::Macos), Ok(()));
}

#[test]
fn run_requests_checked() {
    let mut r = request();
    assert!(check_run_request(true, &r).is_err());
    assert!(check_run_request(false, &r).is_ok());
    r.device = Some(s("Pixel"));
    assert!(check_run_request(true, &r).is_ok());
    assert!(check_run_again(&r).is_err());
    let mut again = request();
    again.log_filter = Some(s("debug"));
    assert!(check_run_again(&again).is_ok());
    again.mold = true;
    assert_eq!(
        check_run_again(&again),
        Err(s("`water run again` does not accept additional options. Re-run the original command without extra flags."))
    );
}

#[test]
fn replay_of_last_run() {
    let last = LastRun {
        platform: Platform::Ios,
        device: Some(s("iPhone 15")),
        release: true,
        enable_sccache: false,
        mold: true,
        timestamp: 1_700_000_000,
    };
    let r = replay_request(&last);
    assert_eq!(r.platform, Some(Platform::Ios));
    assert_eq!(r.device.as_deref(), Some("iPhone 15"));
    assert!(r.release);
    assert!(r.no_sccache);
    assert!(r.mold);
    assert!(!r.no_hot_reload);
    assert!(r.log_filter.is_none());
}

#[test]
fn apple_simulator_steps() {
    assert_eq!(simulator_target(Platform::Ipados), Ok(("iOS Simulator", "iphonesimulator")));
    assert_eq!(simulator_target(Platform::Visionos), Ok(("visionOS Simulator", "xrsimulator")));
    assert_eq!(simulator_target(Platform::Macos), Err(s("Unsupported platform for simulator: Macos")));
    assert_eq!(simulator_destination("iOS Simulator", "iPhone 15"), "platform=iOS Simulator,name=iPhone 15");
    assert_eq!(
        simulator_app_bundle("/p/.waterui/DerivedData", "Debug", "iphonesimulator", "demo"),
        "/p/.waterui/DerivedData/Build/Products/Debug-iphonesimulator/demo.app"
    );
    assert_eq!(
        simctl_launch_args("iPhone 15", "com.x.demo", Some(2006)),
        vec![
            s("simctl"), s("launch"), s("--terminate-running-process"), s("--setenv"),
            s("WATERUI_HOT_RELOAD_PORT"), s("2006"), s("iPhone 15"), s("com.x.demo")
        ]
    );
    assert_eq!(simctl_launch_args("A", "b", None), vec![s("simctl"), s("launch"), s("--terminate-running-process"), s("A"), s("b")]);
    assert_eq!(simulator_option_label("iPhone 15", Some("iOS 17.2")), "iPhone 15 (iOS 17.2)");
    assert_eq!(simulator_option_label("iPhone 15", None), "iPhone 15");
}

#[test]
fn default_simulator_skips_unavailable() {
    let c = vec![(s("Old"), Some(s("unavailable"))), (s("New"), Some(s("Shutdown"))), (s("Other"), None)];
    assert_eq!(preferred_simulator(&c), "New");
    let all_gone = vec![(s("A"), Some(s("unavailable"))), (s("B"), Some(s("unavailable")))];
    assert_eq!(preferred_simulator(&all_gone), "A");
    assert_eq!(preferred_simulator(&vec![(s("Only"), None)]), "Only");
}

#[test]
fn xcode_project_and_build_args() {
    assert_eq!(xcode_project_file("/p", "apple", "demo", None), "/p/apple/demo.xcodeproj");
    assert_eq!(xcode_project_file("/p", "apple", "demo", Some("Demo.xcodeproj")), "/p/apple/Demo.xcodeproj");
    assert_eq!(
        xcodebuild_args("/p/apple/Demo.xcodeproj", "demo", "Release", "/p/dd"),
        vec![
            s("-project"), s("/p/apple/Demo.xcodeproj"), s("-scheme"), s("demo"), s("-configuration"),
            s("Release"), s("-derivedDataPath"), s("/p/dd"), s("-allowProvisioningUpdates"),
            s("-allowProvisioningDeviceRegistration")
        ]
    );
}

#[test]
fn android_launch_pieces() {
    assert_eq!(avd_names("Pixel_7\n\n  Tablet_API_34 \r\n"), vec![s("Pixel_7"), s("Tablet_API_34")]);
    assert_eq!(avd_names(""), Vec::<String>::new());
    assert_eq!(launch_activity("com.Water-Demo.app"), "com.water_demo.app/.MainActivity");
    let phone = AndroidSelection { name: s("Pixel"), identifier: Some(s("ABC123")), kind: DeviceKind::Device };
    assert_eq!(phone.stored_id(), "ABC123");
    let emulator = AndroidSelection { name: s("Pixel_7"), identifier: None, kind: DeviceKind::Emulator };
    assert_eq!(emulator.stored_id(), "Pixel_7");
    assert_eq!(apple_target_label("iPhone 15", PlatformKind::Ios), "iPhone 15 (iOS)");
}

#[test]
fn create_mode_and_backends() {
    assert!(check_create_mode(true, false).is_err());
    assert!(check_create_mode(true, true).is_ok());
    assert!(check_create_mode(false, false).is_ok());
    assert_eq!(
        choose_backends(&vec![], &vec![0, 2]),
        vec![BackendChoice::Web, BackendChoice::Android]
    );
    assert_eq!(choose_backends(&vec![BackendChoice::Apple], &vec![0]), vec![BackendChoice::Apple]);
    assert_eq!(choose_backends(&vec![], &vec![]), Vec::<BackendChoice>::new());
    assert_eq!(android_backend_version(false, "0.3.1").as_deref(), Some("0.3.1"));
    assert_eq!(android_backend_version(true, "0.3.1"), None);
    assert_eq!(android_backend_version(false, ""), None);
}

#[test]
fn swift_entries_from_dependency() {
    let git = SwiftDependency::Git { version: Some(s("0.2.0")), branch: None, revision: None };
    let e = swift_backend_entry("apple", "water-demo", "WaterDemo", &git, false);
    assert_eq!(e.project_path, "apple");
    assert_eq!(e.scheme, "water-demo");
    assert_eq!(e.project_file.as_deref(), Some("WaterDemo.xcodeproj"));
    assert_eq!(e.version.as_deref(), Some("0.2.0"));
    assert!(e.local_path.is_none());
    assert!(!e.dev);
    let local = SwiftDependency::Local { path: s("/w/backends/apple") };
    let e = swift_backend_entry("apple", "demo", "Demo", &local, true);
    assert!(e.version.is_none() && e.branch.is_none() && e.revision.is_none());
    assert_eq!(e.local_path.as_deref(), Some("/w/backends/apple"));
    assert!(e.dev);
}

#[test]
fn android_project_plan() {
    assert!(env_switch_enabled(Some("1")));
    assert!(env_switch_enabled(Some("TRUE")));
    assert!(env_switch_enabled(Some("tRuE")));
    assert!(!env_switch_enabled(Some("yes")));
    assert!(!env_switch_enabled(None));
    assert_eq!(android_backend_source(true, true), AndroidBackendSource::Remote);
    assert_eq!(android_backend_source(true, false), AndroidBackendSource::DevCheckout);
    assert_eq!(android_backend_source(false, true), AndroidBackendSource::Bundled);
    let ctx = android_template_context("Water Demo", "water-demo", "com.waterui.water-demo", false);
    assert_eq!(
        ctx,
        vec![
            (s("APP_NAME"), s("Water Demo")),
            (s("CRATE_NAME"), s("water-demo")),
            (s("CRATE_NAME_SANITIZED"), s("water_demo")),
            (s("BUNDLE_IDENTIFIER"), s("com.waterui.water_demo")),
            (s("USE_DEV_BACKEND"), s("false")),
        ]
    );
    let files = android_template_files("com.waterui.water_demo");
    assert_eq!(files.len(), 18);
    assert_eq!(files[0].template, "android/build.gradle.kts.tpl");
    assert_eq!(files[0].destination, "android/build.gradle.kts");
    assert!(files[0].render);
    assert!(!files[4].render);
    assert_eq!(files[12].destination, "android/app/src/main/java/com/waterui/water_demo/MainActivity.kt");
    assert_eq!(files[13].destination, "build-rust.sh");
    assert!(matches!(dev_commit_step(true, Some(s("abc"))), DevCommitStep::Write(c) if c == "abc"));
    assert!(matches!(dev_commit_step(false, Some(s("abc"))), DevCommitStep::Clear));
    assert!(matches!(dev_commit_step(true, None), DevCommitStep::Clear));
}

#[test]
fn gradle_build_pieces() {
    assert_eq!(gradle_outputs(true), ("assembleRelease", "app/build/outputs/apk/release/app-release.apk"));
    assert_eq!(gradle_outputs(false), ("assembleDebug", "app/build/outputs/apk/debug/app-debug.apk"));
    assert_eq!(gradlew_executable(true), "gradlew.bat");
    assert_eq!(gradlew_executable(false), "./gradlew");
    assert_eq!(sdk_local_properties("/opt/sdk"), "sdk.dir=/opt/sdk\n");
    let path = vec![s("/usr/bin"), s("/bin")];
    assert_eq!(prepend_path_entry(&path, "/bin", false), path);
    assert_eq!(prepend_path_entry(&path, "/bin", true), vec![s("/bin"), s("/usr/bin"), s("/bin")]);
    let once = prepend_path_entry(&path, "/jdk/bin", false);
    assert_eq!(once, vec![s("/jdk/bin"), s("/usr/bin"), s("/bin")]);
    assert_eq!(prepend_path_entry(&once, "/jdk/bin", false), once);
    assert_eq!(
        ndk_bin_candidates("/ndk", "linux"),
        vec![s("/ndk/toolchains/llvm/prebuilt/linux-aarch64/bin"), s("/ndk/toolchains/llvm/prebuilt/linux-x86_64/bin")]
    );
    assert_eq!(ndk_bin_candidates("/ndk", "plan9"), Vec::<String>::new());
}

#[test]
fn java_home_choice() {
    let configured = vec![(s("/jdk23"), Some(23)), (s("/jdk17"), Some(17))];
    assert_eq!(pick_java_home(&configured, &vec![(s("/sys"), Some(21))]).as_deref(), Some("/jdk17"));
    let too_new = vec![(s("/jdk23"), Some(23)), (s("/broken"), None)];
    let installed = vec![(s(""), Some(17)), (s("/sys/jdk"), Some(21))];
    assert_eq!(pick_java_home(&too_new, &installed).as_deref(), Some("/sys/jdk"));
    assert_eq!(pick_java_home(&too_new, &vec![]), None);
}

#[test]
fn cargo_invocations() {
    assert_eq!(
        cargo_build_args("demo", Some("aarch64-linux-android"), true),
        vec![s("build"), s("--package"), s("demo"), s("--target"), s("aarch64-linux-android"), s("--release")]
    );
    assert_eq!(cargo_build_args("demo", None, false), vec![s("build"), s("--package"), s("demo")]);
    assert_eq!(
        cdylib_rustc_args("demo", None, false),
        vec![s("rustc"), s("--package"), s("demo"), s("--lib"), s("--"), s("--crate-type"), s("cdylib")]
    );
    assert_eq!(dev_profile_env(true), Vec::<(String, String)>::new());
    assert_eq!(
        dev_profile_env(false),
        vec![(s("CARGO_PROFILE_DEV_DEBUG"), s("1")), (s("CARGO_PROFILE_DEV_SPLIT_DEBUGINFO"), s("packed"))]
    );
    assert_eq!(deps_dir("/p", Some("aarch64-linux-android"), false), "/p/target/aarch64-linux-android/debug/deps");
    assert_eq!(deps_dir("/p", None, true), "/p/target/release/deps");
    assert!(is_android_target(Some("armv7-linux-androideabi")));
    assert!(!is_android_target(Some("aarch64-apple-ios")));
    assert!(!is_android_target(None));
}

#[test]
fn build_retry_decisions() {
    assert_eq!(
        next_after_build(true, true, false, true, Some("aarch64-linux-android")),
        BuildNext::Finish { ensure_cdylib: true, copy_to_jni_libs: true }
    );
    assert_eq!(
        next_after_build(true, false, true, true, Some("aarch64-linux-android")),
        BuildNext::Finish { ensure_cdylib: true, copy_to_jni_libs: false }
    );
    assert_eq!(next_after_build(true, false, false, false, None), BuildNext::Finish { ensure_cdylib: false, copy_to_jni_libs: false });
    assert_eq!(next_after_build(false, true, false, true, None), BuildNext::RetryWithoutCache);
    assert_eq!(next_after_build(false, true, true, true, None), BuildNext::Fail);
    assert_eq!(next_after_build(false, false, false, true, None), BuildNext::Fail);
}

#[test]
fn cdylib_artifacts_recognised() {
    assert!(is_cdylib_artifact("libwater_demo-1a2b.so", "water-demo", "libwater_demo.so"));
    assert!(!is_cdylib_artifact("libwater_demo-1a2b.rlib", "water-demo", "libwater_demo.so"));
    assert!(!is_cdylib_artifact("libother.so", "water-demo", "libwater_demo.so"));
    assert!(is_cdylib_artifact("water_demo-9.dll", "water-demo", "water_demo.dll"));
}

#[test]
fn generated_manifest() {
    let mut ctx = TemplateContext {
        app_display_name: s("Demo"),
        app_name: s("Demo"),
        crate_name: s("demo"),
        bundle_identifier: s("com.example.demo"),
        author: s("Ann"),
        android_backend_path: None,
        use_remote_dev_backend: false,
        waterui_path: None,
        backend_project_path: None,
        android_permissions: vec![],
    };
    let m = ctx.cargo_manifest();
    assert_eq!(m.name, "demo");
    assert_eq!(m.version, "0.1.0");
    assert_eq!(m.edition, "2024");
    assert_eq!(m.authors, vec![s("Ann")]);
    assert_eq!(m.crate_types, vec![s("staticlib"), s("cdylib"), s("rlib")]);
    assert_eq!(m.dependencies.len(), 2);
    assert!(matches!(&m.dependencies[0], (n, ManifestDep::Version(v)) if n == "waterui" && v == "0.2"));
    assert!(matches!(&m.dependencies[1], (n, ManifestDep::Version(v)) if n == "waterui-ffi" && v == "0.2"));
    ctx.waterui_path = Some(s("C:\\src\\waterui"));
    let m = ctx.cargo_manifest();
    assert!(matches!(&m.dependencies[0], (n, ManifestDep::Path(p)) if n == "waterui" && p == "C:/src/waterui"));
    assert!(matches!(&m.dependencies[1], (n, ManifestDep::Path(p)) if n == "waterui-ffi" && p == "C:/src/waterui/ffi"));
    assert_eq!(root_template_destination("/p", "lib.rs.tpl"), "/p/src/lib.rs");
    assert_eq!(root_template_destination("/p", ".gitignore.tpl"), "/p/.gitignore");
    assert_eq!(root_template_destination("/p", "README"), "/p/README");
}

#[test]
fn panic_and_log_rendering() {
    assert_eq!(panic_location_text("src/lib.rs", 42, 7), "src/lib.rs:42:7");
    assert_eq!(backtrace_frames("  disabled backtrace "), None);
    assert_eq!(backtrace_frames(" \n "), None);
    assert_eq!(
        backtrace_frames("  0: std::panicking::begin\n\n   1: demo::app::main\n"),
        Some(vec![s("0: std::panicking::begin"), s("1: demo::app::main")])
    );
    assert!(is_user_frame("1: demo::app::main"));
    assert!(is_user_frame("main at src/main.rs:3"));
    assert!(!is_user_frame("at src/main.rs:3"));
    assert!(!is_user_frame("0: std::panicking::begin"));
    assert!(!is_user_frame("rust_begin_unwind"));
    assert!(!is_user_frame("main"));
    assert_eq!(
        remote_log_line("[waterui]", "INFO", "  [waterui][waterui]  hello ", Some("app")),
        "[waterui] [INFO] hello (app)"
    );
    assert_eq!(remote_log_line("[waterui]", "WARN", "plain", Some("")), "[waterui] [WARN] plain");
    assert_eq!(remote_log_line("[waterui]", "WARN", "plain", None), "[waterui] [WARN] plain");
}

#[test]
fn native_socket_answers() {
    assert!(matches!(socket_step(SocketEvent::Text(s("{}"))), SocketAction::HandleMessage(m) if m == "{}"));
    assert!(matches!(
        socket_step(SocketEvent::Close(Some(1000))),
        SocketAction::Disconnected(NativeDisconnectReason::Graceful(Some(1000)))
    ));
    assert!(matches!(socket_step(SocketEvent::Ping(vec![1, 2])), SocketAction::Pong(p) if p == vec![1, 2]));
    assert!(matches!(socket_step(SocketEvent::Other), SocketAction::Ignore));
    assert!(matches!(
        socket_step(SocketEvent::ReceiveError(s("reset"))),
        SocketAction::Disconnected(NativeDisconnectReason::Abnormal(d)) if d == "reset"
    ));
    assert!(matches!(
        socket_step(SocketEvent::LibraryReady { path: s("/l.so"), read_ok: true }),
        SocketAction::SendLibrary(p) if p == "/l.so"
    ));
    assert!(matches!(
        socket_step(SocketEvent::LibraryReady { path: s("/l.so"), read_ok: false }),
        SocketAction::Warn(w) if w == "Failed to read hot reload artifact at /l.so"
    ));
    assert!(matches!(socket_step(SocketEvent::ChannelClosed), SocketAction::Stop));
    assert!(matches!(socket_step(SocketEvent::WebRebuilt), SocketAction::Ignore));
    assert!(matches!(
        socket_step(SocketEvent::Lagged(3)),
        SocketAction::Warn(w) if w == "Missed 3 hot reload updates (CLI lagged behind)"
    ));
}

#[test]
fn android_toolchain_environment() {
    let installed = vec![s("aarch64-linux-android"), s("x86_64-apple-darwin")];
    let t = check_android_target("aarch64-linux-android", Some(&installed)).unwrap();
    assert_eq!(t.bin_prefix, "aarch64-linux-android");
    assert_eq!(t.min_api, 21);
    assert_eq!(
        check_android_target("armv7-linux-androideabi", Some(&installed)).err(),
        Some(s("Rust target `armv7-linux-androideabi` is not installed. Run `rustup target add armv7-linux-androideabi` and retry."))
    );
    assert_eq!(check_android_target("armv7-linux-androideabi", None).unwrap().bin_prefix, "armv7a-linux-androideabi");
    assert_eq!(
        check_android_target("mips-linux-android", None).err(),
        Some(s("Unsupported Android target `mips-linux-android`"))
    );
    assert_eq!(
        android_build_targets_value(&vec![s("aarch64-linux-android"), s("x86_64-linux-android")]),
        Ok(s("aarch64-linux-android,x86_64-linux-android"))
    );
    assert_eq!(android_build_targets_value(&vec![]), Err(s("No Android Rust targets were configured.")));
    assert_eq!(clang_pp_choice(Some(s("/b/clang++")), "/b/clang", true).as_deref(), Some("/b/clang++"));
    assert_eq!(clang_pp_choice(None, "/b/aarch64-linux-android21-clang", true).as_deref(), Some("/b/aarch64-linux-android21-clang++"));
    assert_eq!(clang_pp_choice(None, "/b/clang", false), None);
    assert_eq!(
        target_toolchain_env("aarch64-linux-android", "/b/cc", "/b/c++", Some("/b/llvm-ar"), None),
        vec![
            (s("CC_aarch64_linux_android"), s("/b/cc")),
            (s("CXX_aarch64_linux_android"), s("/b/c++")),
            (s("AR_aarch64_linux_android"), s("/b/llvm-ar")),
            (s("CARGO_TARGET_AARCH64_LINUX_ANDROID_AR"), s("/b/llvm-ar")),
            (s("CARGO_TARGET_AARCH64_LINUX_ANDROID_LINKER"), s("/b/cc")),
        ]
    );
    assert_eq!(target_toolchain_env("x86_64-linux-android", "c", "p", None, Some("r")).len(), 4);
}

#[test]
fn backend_upgrade_reports() {
    let versions = vec![parse_version("0.1.0").unwrap(), parse_version("0.2.3").unwrap()];
    let latest = latest_release(BackendChoice::Android, &versions).unwrap();
    assert_eq!(latest.to_text(), "0.2.3");
    assert_eq!(latest_release(BackendChoice::Apple, &vec![]).err(), Some(s("No Apple backend releases available")));
    let (go, r) = upgrade_report(BackendChoice::Apple, Some(s("0.1.0")), &latest, UpgradeOutcome::Compatible);
    assert!(go);
    assert_eq!(r.status, BackendUpdateStatus::Updated);
    assert_eq!(r.from_version.as_deref(), Some("0.1.0"));
    assert_eq!(r.to_version.as_deref(), Some("0.2.3"));
    assert_eq!(r.message, None);
    let (go, r) = upgrade_report(BackendChoice::Android, None, &latest, UpgradeOutcome::Upgraded(s("bumped")));
    assert!(go);
    assert_eq!(r.message.as_deref(), Some("bumped"));
    let (go, r) = upgrade_report(BackendChoice::Android, Some(s("0.1.0")), &latest, UpgradeOutcome::Cancelled(s("declined")));
    assert!(!go);
    assert_eq!(r.status, BackendUpdateStatus::Skipped);
    assert_eq!(r.backend, "Android");
    assert_eq!(r.message.as_deref(), Some("declined"));
    assert_eq!(r.to_version, None);
}

#[test]
fn screenshot_failures_explained() {
    assert_eq!(
        apple_capture_error("ABC", " Invalid device: ABC\n", Some(1)),
        "Device 'ABC' is not available.\nThe simulator may not be booted. Start it with `water run --device ABC`."
    );
    assert_eq!(
        apple_capture_error("ABC", "Unable to write", Some(1)),
        "Unable to capture screenshot: Unable to write\nEnsure the simulator is fully booted and responsive."
    );
    assert_eq!(apple_capture_error("ABC", "boom", None), "Screenshot capture failed: boom");
    assert_eq!(
        apple_capture_error("ABC", "  ", None),
        "Screenshot capture failed with exit code -1.\nEnsure the simulator is booted and responsive."
    );
    assert_eq!(
        android_capture_error("Pixel", "error: device offline", Some(1)),
        "Device 'Pixel' is offline.\nCheck the USB connection or restart the device."
    );
    assert_eq!(
        android_capture_error("Pixel", "error: device 'x' not found", Some(1)),
        "Device 'Pixel' not found.\nThe device may have been disconnected. Run `water devices` to check."
    );
    assert_eq!(android_capture_error("Pixel", "", Some(3)), "Screenshot capture failed with exit code 3.");
}

#[test]
fn running_emulators_listed() {
    let out = "List of devices attached\nemulator-5554          device product:sdk model:x\nR58M123    device usb:1\n\nemulator-5556 offline\nemulator-5558\n";
    assert_eq!(running_emulator_serials(out), vec![s("emulator-5554"), s("emulator-5556")]);
    assert_eq!(running_emulator_serials(""), Vec::<String>::new());
    assert_eq!(running_emulator_serials("emulator-5554 device\n"), Vec::<String>::new());
    assert_eq!(reported_avd_name("\n Pixel_7\nOK\n"), "Pixel_7");
    assert_eq!(reported_avd_name("  "), "");
    assert_eq!(ready_device_serials("List of devices attached\nR58\tdevice\nX1\toffline\nemulator-5554\tdevice\n"), vec![s("R58"), s("emulator-5554")]);
    assert_eq!(ready_device_serials(""), Vec::<String>::new());
}

#[test]
fn device_listing_lines() {
    assert_eq!(ios_simulator_lines(&vec![]), vec![s("  No iOS simulators available")]);
    assert_eq!(
        ios_simulator_lines(&vec![(s("iPhone 15"), s("U1"), s("Booted")), (s("iPad"), s("U2"), s("Shutdown"))]),
        vec![s("  ● iPhone 15 (U1)"), s("  ○ iPad (U2)")]
    );
    assert_eq!(android_device_lines(&vec![], &vec![]), vec![s("  No Android devices or emulators available")]);
    assert_eq!(
        android_device_lines(&vec![s("Pixel_7")], &vec![(s("emulator-5554"), s("x86_64")), (s("R58"), s("arm64-v8a"))]),
        vec![s("  ● Pixel_7 (emulator)"), s("  ● R58 (arm64-v8a)")]
    );
    assert_eq!(android_device_lines(&vec![s("Pixel_7")], &vec![]), vec![s("  ○ Pixel_7 (emulator)")]);
}

#[test]
fn git_and_toolchain_messages() {
    assert_eq!(git_failure_message("Failed to clone", " fatal: no repo \n", "out"), "Failed to clone: fatal: no repo");
    assert_eq!(git_failure_message("Failed to clone", "  ", " out "), "Failed to clone: out");
    assert_eq!(git_failure_message("Failed to clone", "", ""), "Failed to clone");
    assert_eq!(
        toolchain_error_lines("Android", &vec![(s("NDK missing"), s(" Install the NDK ")), (s("adb missing"), s(""))]),
        vec![
            s("Error: Android requirements are not satisfied"),
            s("  • NDK missing"),
            s("    suggestion: Install the NDK"),
            s("  • adb missing"),
            s("  → Run `water doctor` for automatic fixes."),
        ]
    );
}

#[test]
fn web_build_pieces() {
    assert_eq!(hot_reload_watch_paths("/p", &vec![s("assets"), s("/abs")]), vec![s("/p/src"), s("/p/assets"), s("/abs")]);
    assert_eq!(hot_reload_watch_paths("/p", &vec![]), vec![s("/p/src")]);
    assert_eq!(inject_hot_reload_port("const p = __HOT_RELOAD_PORT__; // __HOT_RELOAD_PORT__", 2006), "const p = 2006; // 2006");
    assert_eq!(
        wasm_pack_args("/p/web", false),
        vec![s("build"), s("--target"), s("web"), s("--out-dir"), s("/p/web/pkg"), s("--out-name"), s("app"), s("--dev")]
    );
    assert_eq!(wasm_pack_args("/p/web", true)[7], "--release");
    assert_eq!(wasm_artifact("/p/target", "water-demo", true), "/p/target/wasm32-unknown-unknown/release/water_demo.wasm");
}

#[test]
fn rust_toolchain_check() {
    let rust = Rust::new_with_targets(vec![s("aarch64-linux-android"), s("wasm32-unknown-unknown"), s("x86_64-apple-darwin")]);
    let installed = vec![s("x86_64-apple-darwin")];
    assert_eq!(rust.name(), "Rust");
    assert_eq!(rust.missing_targets(&installed), vec![s("aarch64-linux-android"), s("wasm32-unknown-unknown")]);
    assert_eq!(
        rust.check(true, true, &installed),
        Err(s("Missing Rust targets: aarch64-linux-android, wasm32-unknown-unknown"))
    );
    assert_eq!(rust.check(false, true, &installed), Err(s("Rust is not installed")));
    assert_eq!(rust.check(true, false, &installed), Err(s("rustup (Rust toolchain manager) is not installed")));
    let one = Rust::new(s("x86_64-apple-darwin"));
    assert_eq!(one.check(true, true, &installed), Ok(()));
}

#[test]
fn run_device_picks() {
    let sims = vec![
        (s("iPhone 15"), s("U1"), s("Shutdown")),
        (s("iPhone 16"), s("U2"), s("Booted")),
        (s("iPad"), s("U3"), s("Booted")),
    ];
    assert_eq!(choose_ios_simulator(&sims, None), Ok(1));
    assert_eq!(choose_ios_simulator(&sims, Some("U3")), Ok(2));
    assert_eq!(choose_ios_simulator(&sims, Some("iPhone 15")), Ok(0));
    assert_eq!(choose_ios_simulator(&sims, Some("X")), Err(s("Device not found: X")));
    let idle = vec![(s("A"), s("1"), s("Shutdown")), (s("B"), s("2"), s("Shutdown"))];
    assert_eq!(choose_ios_simulator(&idle, None), Ok(0));
    assert_eq!(choose_ios_simulator(&vec![], None), Err(s("No iOS simulators available")));
    let connected = vec![s("R58"), s("emulator-5554")];
    assert_eq!(choose_android_target(&connected, &vec![], Some("emulator-5554")), Ok(AndroidPick::Device(1)));
    assert_eq!(choose_android_target(&connected, &vec![], None), Ok(AndroidPick::Device(0)));
    assert_eq!(choose_android_target(&vec![], &vec![s("Pixel_7")], None), Ok(AndroidPick::Emulator(0)));
    assert_eq!(choose_android_target(&vec![], &vec![s("Pixel_7")], Some("Pixel_7")), Err(s("Device not found: Pixel_7")));
    assert!(choose_android_target(&vec![], &vec![], None).is_err());
}

#[test]
fn run_event_rendering() {
    assert!(matches!(device_event_output(Some(DeviceEvent::Started)), (EventOutput::Status("●", t), false) if t == "Application started"));
    assert!(matches!(device_event_output(Some(DeviceEvent::Stopped)), (EventOutput::Status("○", _), true)));
    assert!(matches!(device_event_output(Some(DeviceEvent::Stdout(s("hi")))), (EventOutput::Line(t), false) if t == "[stdout] hi"));
    assert!(matches!(device_event_output(Some(DeviceEvent::Stderr(s("oops")))), (EventOutput::Warn(t), false) if t == "[stderr] oops"));
    assert!(matches!(device_event_output(Some(DeviceEvent::Crashed(s("sig")))), (EventOutput::Error(t), true) if t == "Application crashed: sig"));
    assert!(matches!(device_event_output(Some(DeviceEvent::Exited)), (EventOutput::Note(_), true)));
    assert!(matches!(device_event_output(None), (EventOutput::Nothing, true)));
    assert!(matches!(
        device_event_output(Some(DeviceEvent::Log { level: s("INFO"), message: s("m") })),
        (EventOutput::Log(l, m), false) if l == "INFO" && m == "m"
    ));
    assert!(matches!(
        hot_reload_event_output(HotReloadEvent::ServerStarted { host: s("127.0.0.1"), port: 2006 }),
        EventOutput::Status("◉", t) if t == "Hot reload server on 127.0.0.1:2006"
    ));
    assert!(matches!(hot_reload_event_output(HotReloadEvent::Built(s("/l.so"))), EventOutput::Status("◑", t) if t == "Built: /l.so"));
    assert!(matches!(hot_reload_event_output(HotReloadEvent::BuildFailed(s("e"))), EventOutput::Error(t) if t == "Build failed: e"));
    assert!(matches!(hot_reload_event_output(HotReloadEvent::Broadcast), EventOutput::Line(t) if t == "Hot reload: updated"));
}

#[test]
fn add_backend_rules() {
    assert_eq!(check_backend_absent(BackendChoice::Web, true), Err(s("Web backend already exists in this project.")));
    assert_eq!(check_backend_absent(BackendChoice::Android, false), Ok(()));
    assert_eq!(with_watch_path(&vec![s("assets")], "web"), vec![s("assets"), s("web")]);
    assert_eq!(with_watch_path(&vec![s("web"), s("assets")], "web"), vec![s("web"), s("assets")]);
    assert_eq!(with_watch_path(&vec![], "web"), vec![s("web")]);
}

#[test]
fn build_targets_by_platform_and_arch() {
    assert_eq!(build_target(BuildPlatform::Ios, None), Ok(BuildTarget::IosDevice));
    assert_eq!(build_target(BuildPlatform::Ios, Some(TargetArch::Arm64)), Ok(BuildTarget::IosDevice));
    assert_eq!(build_target(BuildPlatform::Ios, Some(TargetArch::X86_64)), Err(s("iOS physical devices only support arm64, not X86_64")));
    assert_eq!(build_target(BuildPlatform::IosSimulator, Some(TargetArch::X86_64)), Ok(BuildTarget::IosSimulator(Some(TargetArch::X86_64))));
    assert_eq!(build_target(BuildPlatform::IosSimulator, Some(TargetArch::Armv7)), Err(s("iOS Simulator only supports arm64 or x86_64, not Armv7")));
    assert_eq!(build_target(BuildPlatform::Android, None), Ok(BuildTarget::Android(TargetArch::Arm64)));
    assert_eq!(build_target(BuildPlatform::Android, Some(TargetArch::X86)), Ok(BuildTarget::Android(TargetArch::X86)));
    assert_eq!(build_target(BuildPlatform::Macos, None), Ok(BuildTarget::Macos(None)));
    assert_eq!(build_target(BuildPlatform::Macos, Some(TargetArch::X86)), Err(s("macOS only supports arm64 or x86_64, not X86")));
    assert_eq!(android_abi(TargetArch::Armv7), "armeabi-v7a");
    assert_eq!(build_heading("demo", BuildPlatform::IosSimulator, false), "Building demo for iOS Simulator (debug)");
}

#[test]
fn doctor_flow() {
    assert_eq!(doctor_targets(true), vec![CheckTarget::Rust, CheckTarget::Swift, CheckTarget::Android]);
    assert_eq!(doctor_targets(false), vec![CheckTarget::Rust, CheckTarget::Android]);
    assert_eq!(doctor_follow_up(true, true, true), DoctorFollowUp::Fix(FixMode::Automatic));
    assert_eq!(doctor_follow_up(true, false, false), DoctorFollowUp::Ask);
    assert_eq!(doctor_follow_up(true, false, true), DoctorFollowUp::Done);
    assert_eq!(doctor_follow_up(false, true, false), DoctorFollowUp::NothingToFix);
    assert_eq!(doctor_follow_up(false, false, false), DoctorFollowUp::Done);
    assert_eq!(progress_label(2, 3, "Swift"), "[2/3] Swift");
}

#[test]
fn scaffold_destinations() {
    let ctx = TemplateContext {
        app_display_name: s("Demo"),
        app_name: s("Demo"),
        crate_name: s("demo"),
        bundle_identifier: s("com.example.demo"),
        author: s("Ann"),
        android_backend_path: None,
        use_remote_dev_backend: false,
        waterui_path: None,
        backend_project_path: None,
        android_permissions: vec![],
    };
    assert_eq!(ctx.scaffold_destination("AppName/AppNameApp.swift.tpl"), (s("Demo/DemoApp.swift"), true));
    assert_eq!(ctx.scaffold_destination("AppName/Assets/icon.png"), (s("Demo/Assets/icon.png"), false));
    assert_eq!(ctx.scaffold_destination("dir/.tpl"), (s("dir/.tpl"), false));
    assert_eq!(ctx.scaffold_destination(".gitignore.tpl"), (s(".gitignore"), true));
    assert_eq!(
        jni_lib_dirs("/p/android"),
        vec![
            s("/p/android/app/src/main/jniLibs/arm64-v8a"),
            s("/p/android/app/src/main/jniLibs/x86_64"),
            s("/p/android/app/src/main/jniLibs/armeabi-v7a"),
            s("/p/android/app/src/main/jniLibs/x86"),
        ]
    );
    assert_eq!(android_local_properties("C:\\Android\\sdk"), "sdk.dir=C:/Android/sdk\n");
}

#[test]
fn xcode_package_references() {
    let git = SwiftDependency::Git { version: Some(s("0.2.0")), branch: None, revision: None };
    let (entry, section) = xcode_package_reference(&git, "/p/apple", "https://example.com/apple-backend.git");
    assert_eq!(entry, r#"D01867782E6C82CA00802E96 /* XCRemoteSwiftPackageReference "waterui-swift" */,"#);
    let requirement = "requirement = { \n\t\t\t\tkind = upToNextMajorVersion;\n\t\t\t\tminimumVersion = \"0.2.0\";\n\t\t\t\t}";
    let expected = format!(
        r#"/* Begin XCRemoteSwiftPackageReference section */
        D01867782E6C82CA00802E96 /* XCRemoteSwiftPackageReference "waterui-swift" */ = {{
            isa = XCRemoteSwiftPackageReference;
            repositoryURL = "{}";
            {}
        }};
/* End XCRemoteSwiftPackageReference section */"#,
        "https://example.com/apple-backend.git", requirement
    );
    assert_eq!(section, expected);
    let branch = SwiftDependency::Git { version: None, branch: None, revision: None };
    let (_, section) = xcode_package_reference(&branch, "/p/apple", "u");
    assert!(section.contains("requirement = {\n\t\t\t\tkind = branch;\n\t\t\t\tbranch = \"main\";\n\t\t\t};"));
    let rev = SwiftDependency::Git { version: None, branch: Some(s("dev")), revision: Some(s("abc")) };
    let (_, section) = xcode_package_reference(&rev, "/p/apple", "u");
    assert!(section.contains("kind = revision;\n\t\t\t\trevision = \"abc\";"));
    let local = SwiftDependency::Local { path: s("/w/backends/apple") };
    let (entry, section) = xcode_package_reference(&local, "/w/demo/apple", "u");
    assert_eq!(entry, r#"D01867782E6C82CA00802E96 /* XCLocalSwiftPackageReference "waterui-swift" */,"#);
    let expected = format!(
        r#"/* Begin XCLocalSwiftPackageReference section */
        D01867782E6C82CA00802E96 /* XCLocalSwiftPackageReference "waterui-swift" */ = {{
            isa = XCLocalSwiftPackageReference;
            relativePath = "{}";
        }};
/* End XCLocalSwiftPackageReference section */"#,
        "../../backends/apple"
    );
    assert_eq!(section, expected);
}

#[test]
fn build_cache_choice() {
    assert!(matches!(sccache_choice(true, Some(s("/bin/sccache"))), SccacheChoice::Skip(w) if w.starts_with("RUSTC_WRAPPER already set")));
    assert!(matches!(sccache_choice(false, None), SccacheChoice::Skip(w) if w.contains("not found on PATH")));
    assert!(matches!(sccache_choice(false, Some(s("/bin/sccache"))), SccacheChoice::Use(p) if p == "/bin/sccache"));
}

#[test]
fn installed_target_listing() {
    let out = "aarch64-apple-darwin\n  wasm32-unknown-unknown (installed)\n\n";
    assert_eq!(installed_rust_targets(out), vec![s("aarch64-apple-darwin"), s("wasm32-unknown-unknown (installed)")]);
    assert!(rust_target_listed(out, "wasm32-unknown-unknown"));
    assert!(rust_target_listed(out, "aarch64-apple-darwin"));
    assert!(!rust_target_listed(out, "x86_64-apple-darwin"));
    assert_eq!(
        macos_app_paths("/p/dd", "Debug", "demo"),
        (s("/p/dd/Build/Products/Debug/demo.app"), s("/p/dd/Build/Products/Debug/demo.app/Contents/MacOS/demo"))
    );
}

#[test]
fn android_package_adjustment() {
    assert!(android_package_fix("com.example.demo").is_none());
    let f = android_package_fix("com.Example.my-app").unwrap();
    assert_eq!(f.sanitized, "com.example.my_app");
    assert_eq!(f.original_dir, "app/src/main/java/com/Example/my-app");
    assert_eq!(f.sanitized_dir, "app/src/main/java/com/example/my_app");
    assert!(android_package_fix(&f.sanitized).is_none());
}

#[test]
fn available_permission_table() {
    let camera = AvailablePermissionEntry {
        name: s("camera"),
        ios_supported: true,
        android_supported: true,
        ios_key: Some(s("NSCameraUsageDescription")),
        android_permission: Some(s("CAMERA")),
    };
    let vibrate = AvailablePermissionEntry {
        name: s("vibrate"),
        ios_supported: false,
        android_supported: true,
        ios_key: None,
        android_permission: Some(s("VIBRATE")),
    };
    assert_eq!(camera.table_row(), format!("{:<25} {:<5} {:<8} {}", "camera", "Yes", "Yes", "NSCameraUsageDescription"));
    assert_eq!(vibrate.table_row(), format!("{:<25} {:<5} {:<8} {}", "vibrate", "-", "Yes", "VIBRATE"));
    assert!(vibrate.shown_for(Some("android")));
    assert!(!vibrate.shown_for(Some("ios")));
    assert!(vibrate.shown_for(None));
    assert!(vibrate.shown_for(Some("web")));
}

#[test]
fn hot_reload_and_mold_flags_added_once() {
    let first = configure_hot_reload_env(true, Some(2006), &Some(s("-O  -g")));
    let flags = first.set.iter().find(|(k, _)| k == "RUSTFLAGS").map(|(_, v)| v.clone()).unwrap();
    assert_eq!(flags, "-O -g --cfg=waterui_hot_reload_lib");
    let second = configure_hot_reload_env(true, Some(2006), &Some(flags.clone()));
    assert!(second.set.iter().all(|(k, _)| k != "RUSTFLAGS"));
    let off = configure_hot_reload_env(false, None, &Some(flags));
    let cleared = off.set.iter().find(|(k, _)| k == "RUSTFLAGS").map(|(_, v)| v.clone()).unwrap();
    assert_eq!(cleared, "-O -g");
    let mold = configure_mold(true, &Some(s("-O"))).unwrap();
    assert_eq!(mold, "-O -C link-arg=-fuse-ld=mold");
    assert_eq!(configure_mold(true, &Some(mold)), None);
}
