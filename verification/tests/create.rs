use waterui_cli::backend::BackendChoice;
use waterui_cli::create::{
    app_name_for, build_report, crate_name_for, default_bundle_id, default_bundle_identifier, dev_commit_path,
    escape_local_property_path, generate_ios_permission_keys, git_ls_remote_hash, parse_dev_commit,
    parse_platforms, resolve_dependencies_with_path, should_skip, validate_waterui_path, CheckoutProbe,
    CreateStatus, Platform, SwiftDependency, ValidatedWaterUIPath,
};

#[test]
fn bundle_ids_from_names() {
    assert_eq!(default_bundle_id("My Cool App"), "com.example.mycoolapp");
    assert_eq!(default_bundle_identifier("my-app"), "com.waterui.my-app");
}

#[test]
fn names_from_display_name() {
    assert_eq!(crate_name_for("My Cool App", "waterui-app"), "my-cool-app");
    assert_eq!(crate_name_for("!!!", "waterui-app"), "waterui-app");
    assert_eq!(crate_name_for("", "playground"), "playground");
    assert_eq!(app_name_for("my cool app", "WaterUIApp"), "MyCoolApp");
    assert_eq!(app_name_for("", "PlaygroundApp"), "PlaygroundApp");
}

#[test]
fn platforms_by_name() {
    assert_eq!(Platform::from_name("iOS"), Some(Platform::Ios));
    assert_eq!(Platform::from_name("MACOS"), Some(Platform::MacOs));
    assert_eq!(Platform::from_name("web"), None);
    assert_eq!(parse_platforms(&vec!["android".to_string(), "x".to_string(), "ios".to_string()]), vec![Platform::Android, Platform::Ios]);
    assert_eq!(Platform::MacOs.label(), "macOS");
}

fn probe(all: bool) -> CheckoutProbe {
    CheckoutProbe {
        canonical: Some("/src/waterui".to_string()),
        exists: true,
        is_dir: true,
        android_dir: true,
        apple_dir: true,
        android_gradle: true,
        apple_package: all,
    }
}

#[test]
fn checkouts_are_validated() {
    let ok = validate_waterui_path("../waterui", &probe(true)).ok().unwrap();
    assert_eq!(ok.root, "/src/waterui");
    assert_eq!(ok.android_backend, "/src/waterui/backends/android");
    assert_eq!(ok.apple_backend, "/src/waterui/backends/apple");
    let err = validate_waterui_path("../waterui", &probe(false)).err().unwrap();
    assert!(err.starts_with("Invalid Apple backend: missing Package.swift at /src/waterui/backends/apple."));
    let mut p = probe(true);
    p.canonical = None;
    assert_eq!(validate_waterui_path("../w", &p).err().unwrap(), "Failed to resolve WaterUI repository path: ../w");
}

#[test]
fn dependency_lines() {
    let v = ValidatedWaterUIPath { root: "/src/waterui".to_string(), android_backend: "/src/waterui/backends/android".to_string(), apple_backend: "/src/waterui/backends/apple".to_string() };
    assert_eq!(v.path_for_config(&Some("/src/waterui/app".to_string())), "..");
    assert_eq!(v.path_for_config(&None), "/src/waterui");
    let deps = resolve_dependencies_with_path(&Some(v), "0.2.0", "0.2.0").ok().unwrap();
    assert_eq!(deps.rust_toml, "waterui = { path = \"/src/waterui\" }");
    assert_eq!(deps.rust_toml_for_project(&Some("/src/waterui/app".to_string())), "waterui = { path = \"..\" }");
    assert!(matches!(deps.swift, SwiftDependency::Local { .. }));
    let released = resolve_dependencies_with_path(&None, "0.2.0", "1.0.0").ok().unwrap();
    assert_eq!(released.rust_toml_for_project(&None), "waterui = \"0.2.0\"");
    assert_eq!(resolve_dependencies_with_path(&None, "", "1.0.0").err().unwrap(), "WATERUI_VERSION is not set. This should be set at build time.");
    assert_eq!(resolve_dependencies_with_path(&None, "0.2.0", "").err().unwrap(), "WATERUI_SWIFT_BACKEND_VERSION is not set. This should be set at build time.");
}

#[test]
fn ls_remote_and_dev_commit() {
    assert_eq!(git_ls_remote_hash("abc123\trefs/heads/dev\nzzz\tx\n"), Some("abc123".to_string()));
    assert_eq!(git_ls_remote_hash(""), None);
    assert_eq!(git_ls_remote_hash("\trefs/heads/dev\n"), None);
    assert_eq!(parse_dev_commit("  abc \n"), Some("abc".to_string()));
    assert_eq!(parse_dev_commit(" \n"), None);
    assert_eq!(dev_commit_path("/p"), "/p/backends/android/.waterui-dev-commit");
}

#[test]
fn android_backend_copy_rules() {
    assert!(should_skip(".gradle"));
    assert!(should_skip("build"));
    assert!(!should_skip("app"));
    assert_eq!(escape_local_property_path("/a b/c", false), "/a b/c");
    assert_eq!(escape_local_property_path("C:\\Users\\me\\sdk", true), "C:\\\\Users\\\\me\\\\sdk");
    assert_eq!(escape_local_property_path("C:\\sdk", false), "C:\\sdk");
}

#[test]
fn permission_keys_are_deduplicated_and_escaped() {
    let entries = vec![
        ("NSCameraUsageDescription".to_string(), "Take \"photos\"".to_string()),
        ("NSMicrophoneUsageDescription".to_string(), "Record".to_string()),
        ("NSCameraUsageDescription".to_string(), "Other".to_string()),
    ];
    assert_eq!(
        generate_ios_permission_keys(&entries),
        "\t\t\t\tINFOPLIST_KEY_NSCameraUsageDescription = \"Take \\\"photos\\\"\";\n\t\t\t\tINFOPLIST_KEY_NSMicrophoneUsageDescription = \"Record\";"
    );
    assert_eq!(generate_ios_permission_keys(&Vec::new()), "");
}

#[test]
fn create_report() {
    let r = build_report(CreateStatus::Created, "/p", "app", "App", "com.x.app", &vec![BackendChoice::Apple, BackendChoice::Android], false);
    assert_eq!(r.backends, vec!["Apple".to_string(), "Android".to_string()]);
    assert_eq!(r.config_path, "/p/Water.toml");
    assert_eq!(r.to_text(), "Project created at /p\nBackends: Apple, Android");
}
