use waterui_cli::backend::BackendChoice;
use waterui_cli::create::{ProjectDependencies, SwiftDependency, ValidatedWaterUIPath};
use waterui_cli::scaffold::{
    kept_on_regenerate, plan_create, playground_app_name, playground_backend_entry, playground_files, playground_plan,
    project_files, use_playground_backend, BackendEntry, BackendPaths, PackageType,
};
use waterui_cli::templates::ManifestDep;

fn released() -> ProjectDependencies {
    ProjectDependencies {
        rust_toml: "waterui = \"0.2\"".to_string(),
        swift: SwiftDependency::Git { version: Some("0.2.0".to_string()), branch: None, revision: None },
        local_waterui_path: None,
    }
}

fn local() -> ProjectDependencies {
    ProjectDependencies {
        rust_toml: "waterui = { path = \"/src/waterui\" }".to_string(),
        swift: SwiftDependency::Local { path: "/src/waterui/backends/apple".to_string() },
        local_waterui_path: Some(ValidatedWaterUIPath {
            root: "/src/waterui".to_string(),
            android_backend: "/src/waterui/backends/android".to_string(),
            apple_backend: "/src/waterui/backends/apple".to_string(),
        }),
    }
}

fn paths() -> BackendPaths {
    BackendPaths { web: "web".to_string(), android: "android".to_string(), apple: "apple".to_string() }
}

#[test]
fn create_refuses_json_without_yes() {
    let r = plan_create(&Some("My App".to_string()), &None, &None, &vec![], &vec![], true, false, "/work");
    assert_eq!(
        r.err().unwrap(),
        "JSON output requires --yes to avoid interactive prompts. Re-run with --yes or provide --backend, --name, and related flags."
    );
    assert!(plan_create(&None, &None, &None, &vec![], &vec![], true, true, "/work").is_ok());
}

#[test]
fn create_plan_with_yes_takes_every_backend() {
    let p = plan_create(&Some("My App".to_string()), &None, &None, &vec![], &vec![], false, true, "/work").ok().unwrap();
    assert_eq!(p.display_name, "My App");
    assert_eq!(p.crate_name, "my-app");
    assert_eq!(p.app_name, "MyApp");
    assert_eq!(p.bundle_identifier, "com.waterui.my-app");
    assert_eq!(p.directory, "/work/my-app");
    assert_eq!(p.backends, vec![BackendChoice::Web, BackendChoice::Apple, BackendChoice::Android]);
}

#[test]
fn create_plan_defaults_and_choices() {
    let p = plan_create(&None, &Some("org.example.demo".to_string()), &Some("/tmp/demo".to_string()), &vec![BackendChoice::Android], &vec![], false, false, "/work")
        .ok()
        .unwrap();
    assert_eq!(p.display_name, "Water Demo");
    assert_eq!(p.crate_name, "water-demo");
    assert_eq!(p.app_name, "WaterDemo");
    assert_eq!(p.bundle_identifier, "org.example.demo");
    assert_eq!(p.directory, "/tmp/demo");
    assert_eq!(p.backends, vec![BackendChoice::Android]);
    let picked = plan_create(&Some("x".to_string()), &None, &None, &vec![], &vec![2, 0], false, false, "/work").ok().unwrap();
    assert_eq!(picked.backends, vec![BackendChoice::Android, BackendChoice::Web]);
    let none = plan_create(&Some("!!".to_string()), &None, &None, &vec![], &vec![], false, false, "/work").ok().unwrap();
    assert!(none.backends.is_empty());
    assert_eq!(none.crate_name, "waterui-app");
    assert_eq!(none.app_name, "WaterUIApp");
}

#[test]
fn project_files_for_released_app() {
    let p = plan_create(&Some("My App".to_string()), &None, &None, &vec![], &vec![], false, true, "/work").ok().unwrap();
    let files = project_files(&p, "Ada", false, &released(), &Some("/work/my-app".to_string()), "0.3.1", &paths());
    assert_eq!(files.manifest.name, "my-app");
    assert_eq!(files.manifest.edition, "2024");
    assert_eq!(files.manifest.authors, vec!["Ada".to_string()]);
    assert_eq!(files.manifest.crate_types, vec!["staticlib".to_string(), "cdylib".to_string(), "rlib".to_string()]);
    assert_eq!(files.manifest.dependencies.len(), 2);
    assert_eq!(files.manifest.dependencies[1].0, "waterui-ffi");
    assert!(matches!(&files.manifest.dependencies[0].1, ManifestDep::Version(v) if v == "0.2"));
    assert_eq!(files.rust_context[3], ("WATERUI_DEPS".to_string(), "waterui = \"0.2\"".to_string()));
    assert_eq!(files.rust_context[0], ("CRATE_NAME".to_string(), "my-app".to_string()));
    let c = &files.config;
    assert_eq!(c.package_type, PackageType::App);
    assert_eq!(c.name, "My App");
    assert_eq!(c.bundle_identifier, "com.waterui.my-app");
    assert!(!c.dev_dependencies);
    assert!(c.waterui_path.is_none());
    let web = c.web.as_ref().unwrap();
    assert_eq!(web.project_path, "web");
    assert!(web.version.is_none());
    assert_eq!(c.android.as_ref().unwrap().version.as_deref(), Some("0.3.1"));
    let swift = c.swift.as_ref().unwrap();
    assert_eq!(swift.scheme, "my-app");
    assert_eq!(swift.project_file.as_deref(), Some("MyApp.xcodeproj"));
    assert_eq!(swift.version.as_deref(), Some("0.2.0"));
    assert!(swift.local_path.is_none());
}

#[test]
fn project_files_in_dev_mode() {
    let p = plan_create(&Some("My App".to_string()), &None, &None, &vec![BackendChoice::Android], &vec![], false, false, "/work").ok().unwrap();
    let files = project_files(&p, "Ada", true, &local(), &Some("/src/waterui/my-app".to_string()), "0.3.1", &paths());
    assert_eq!(files.config.waterui_path.as_deref(), Some(".."));
    assert!(files.config.dev_dependencies);
    assert!(files.config.web.is_none() && files.config.swift.is_none());
    let android = files.config.android.as_ref().unwrap();
    assert!(android.version.is_none());
    assert!(android.dev);
    assert_eq!(files.rust_context[3].1, "waterui = { path = \"..\" }");
    assert!(matches!(&files.manifest.dependencies[0].1, ManifestDep::Path(p) if p == ".."));
}

#[test]
fn playground_plan_and_files() {
    let p = playground_plan(&None, &None, &None, "/work");
    assert_eq!(p.display_name, "Playground");
    assert_eq!(p.crate_name, "playground");
    assert_eq!(p.bundle_identifier, "com.waterui.playground");
    assert_eq!(p.directory, "/work/playground");
    assert!(p.backends.is_empty());
    let files = playground_files(&p, "Ada", &released(), &Some("/work/playground".to_string()));
    assert_eq!(files.config.package_type, PackageType::Playground);
    assert!(!files.config.dev_dependencies);
    assert!(files.config.web.is_none() && files.config.android.is_none() && files.config.swift.is_none());
}

#[test]
fn playground_names_and_kept_entries() {
    assert_eq!(playground_app_name("my game"), "MyGame");
    assert_eq!(playground_app_name(""), "PlaygroundApp");
    assert!(kept_on_regenerate("build"));
    assert!(kept_on_regenerate(".gradle"));
    assert!(kept_on_regenerate("DerivedData"));
    assert!(kept_on_regenerate(".build"));
    assert!(!kept_on_regenerate("app"));
    assert!(!kept_on_regenerate("Build"));
}

#[test]
fn playground_backend_entries() {
    let swift = SwiftDependency::Git { version: Some("0.2.0".to_string()), branch: None, revision: None };
    match playground_backend_entry("/p/.water/playground", "my-game", "MyGame", BackendChoice::Apple, false, &swift) {
        BackendEntry::Apple(e) => {
            assert_eq!(e.project_path, "/p/.water/playground/apple");
            assert_eq!(e.scheme, "my-game");
            assert_eq!(e.project_file.as_deref(), Some("MyGame.xcodeproj"));
            assert!(!e.dev);
        }
        _ => panic!("expected an Apple entry"),
    }
    match playground_backend_entry("/p/.water/playground", "my-game", "MyGame", BackendChoice::Android, true, &swift) {
        BackendEntry::Android(e) => {
            assert_eq!(e.project_path, "/p/.water/playground/android");
            assert!(e.version.is_none());
            assert!(e.dev);
        }
        _ => panic!("expected an Android entry"),
    }
}

#[test]
fn playground_config_points_into_cache() {
    let p = playground_plan(&Some("My Game".to_string()), &None, &None, "/src/waterui");
    let mut config = playground_files(&p, "Ada", &local(), &Some("/src/waterui/my-game".to_string())).config;
    use_playground_backend(&mut config, "/src/waterui/my-game/.water/playground", "my-game", BackendChoice::Web, &local().swift);
    let web = config.web.as_ref().unwrap();
    assert_eq!(web.project_path, "/src/waterui/my-game/.water/playground/web");
    assert!(web.dev);
    assert!(config.android.is_none());
    use_playground_backend(&mut config, "/c", "my-game", BackendChoice::Apple, &local().swift);
    let swift = config.swift.as_ref().unwrap();
    assert_eq!(swift.project_file.as_deref(), Some("MyGame.xcodeproj"));
    assert_eq!(swift.local_path.as_deref(), Some("/src/waterui/backends/apple"));
    assert!(config.web.is_some());
}
