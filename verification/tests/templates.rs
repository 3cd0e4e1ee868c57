use waterui_cli::templates::TemplateContext;

fn ctx(waterui_path: Option<String>, backend_project_path: Option<String>) -> TemplateContext {
    TemplateContext {
        app_display_name: String::new(),
        app_name: String::new(),
        crate_name: String::new(),
        bundle_identifier: "com.example.test".to_string(),
        author: String::new(),
        android_backend_path: None,
        use_remote_dev_backend: waterui_path.is_none(),
        waterui_path,
        backend_project_path,
        android_permissions: Vec::new(),
    }
}

#[test]
fn relative_waterui_path_produces_clean_relative_backend_path() {
    let ctx = ctx(Some("../..".to_string()), Some(".water/apple".to_string()));

    let path = ctx
        .compute_relative_backend_path("apple")
        .expect("expected relative backend path");

    assert_eq!(path, "../../../../backends/apple");
    assert!(!path.contains("//"));
}

#[test]
fn absolute_waterui_path_is_used_directly() {
    let abs = "/waterui".to_string();

    let ctx = ctx(Some(abs), Some("apple".to_string()));
    let path = ctx
        .compute_relative_backend_path("apple")
        .expect("expected backend path");

    assert_eq!(path, "/waterui/backends/apple");
}

#[test]
fn no_checkout_gives_no_backend_path() {
    let ctx = ctx(None, None);
    assert_eq!(ctx.compute_relative_backend_path("apple"), None);
    assert_eq!(ctx.compute_android_backend_path(), None);
}

#[test]
fn default_depth_is_one_level() {
    let ctx = ctx(Some("waterui".to_string()), None);
    assert_eq!(ctx.compute_android_backend_path().unwrap(), "../waterui/backends/android");
    assert_eq!(ctx.project_root_relative_path(), "..");
}

#[test]
fn checkout_path_with_trailing_slash_gets_no_double_slash() {
    let ctx = ctx(Some("../waterui/".to_string()), Some(".water/android".to_string()));
    assert_eq!(ctx.compute_android_backend_path().unwrap(), "../../../waterui/backends/android");
}

#[test]
fn dotted_segments_do_not_count_as_depth() {
    let ctx = ctx(None, Some("a/./b/".to_string()));
    assert_eq!(ctx.project_root_relative_path(), "../..");
    let ctx = ctx_with_depth("./apple");
    assert_eq!(ctx.project_root_relative_path(), "../..");
}

fn ctx_with_depth(p: &str) -> TemplateContext {
    ctx(None, Some(p.to_string()))
}

#[test]
fn render_substitutes_every_placeholder() {
    let mut c = ctx(None, None);
    c.app_display_name = "My App".to_string();
    c.app_name = "MyApp".to_string();
    c.crate_name = "my_app".to_string();
    c.bundle_identifier = "com.example.my-app".to_string();
    c.author = "Jane".to_string();
    c.use_remote_dev_backend = true;
    let out = c.render("__APP_DISPLAY_NAME__|__APP_NAME__|__CRATE_NAME__|__ANDROID_NAMESPACE__|__BUNDLE_IDENTIFIER__|__AUTHOR__|__USE_REMOTE_DEV_BACKEND__|__IOS_PERMISSION_KEYS__|__PROJECT_ROOT_RELATIVE_PATH__|__ANDROID_BACKEND_PATH__");
    assert_eq!(out, "My App|MyApp|my_app|com.example.my_app|com.example.my-app|Jane|true||..|");
}

#[test]
fn render_keeps_text_without_placeholders() {
    let c = ctx(None, None);
    assert_eq!(c.render("plain text __NOT_A_PLACEHOLDER__"), "plain text __NOT_A_PLACEHOLDER__");
}

#[test]
fn transform_path_replaces_app_name() {
    let mut c = ctx(None, None);
    c.app_name = "Demo".to_string();
    assert_eq!(c.transform_path("AppName/AppName.xcodeproj"), "Demo/Demo.xcodeproj");
}

#[test]
fn android_permissions_map_to_manifest_lines() {
    let mut c = ctx(None, None);
    c.android_permissions = vec!["CAMERA".to_string(), "internet".to_string(), "com.example.CUSTOM".to_string()];
    assert_eq!(
        c.android_permissions_xml(),
        "    <uses-permission android:name=\"android.permission.CAMERA\" />\n    <uses-permission android:name=\"android.permission.INTERNET\" />\n    <uses-permission android:name=\"com.example.CUSTOM\" />"
    );
    let empty = ctx(None, None);
    assert_eq!(empty.android_permissions_xml(), "");
}

#[test]
fn raw_android_permission_names_pass_through() {
    let mut c = ctx(None, None);
    c.android_permissions = vec!["internet".to_string(), "CAMERA".to_string(), "android.permission.NFC".to_string()];
    assert_eq!(
        c.android_permissions_xml(),
        "    <uses-permission android:name=\"android.permission.INTERNET\" />\n    <uses-permission android:name=\"android.permission.CAMERA\" />\n    <uses-permission android:name=\"android.permission.NFC\" />"
    );
}

#[test]
fn swift_package_reference_switches_between_remote_and_local() {
    let remote = ctx(None, None);
    assert_eq!(
        remote.swift_package_reference_entry(),
        "\t\t\t\tD01867782E6C82CA00802E96 /* XCRemoteSwiftPackageReference \"apple-backend\" */,"
    );
    assert!(remote.swift_package_reference_section().contains("repositoryURL = \"https://github.com/user/waterui-apple.git\";"));
    let local = ctx(Some("/w".to_string()), None);
    assert_eq!(
        local.swift_package_reference_entry(),
        "\t\t\t\tD01867782E6C82CA00802E96 /* XCLocalSwiftPackageReference \"/w/backends/apple\" */,"
    );
    assert!(local.swift_package_reference_section().contains("relativePath = \"/w/backends/apple\";"));
}
