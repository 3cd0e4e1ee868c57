use waterui_cli::run::{
    apple_build_progress_message, configure_hot_reload_env, configure_mold, derived_data_dir, dylib_filename,
    format_connection_loss_message, hot_reload_library_path, hot_reload_target, indent_lines, jni_library_paths,
    last_lines, platform_supports_native_hot_reload, toolchain_targets_for_platform, workspace_root,
    AutoSelectionReason, CheckTarget, NativeDisconnectReason, Platform, WebPlatform,
};

#[test]
fn platform_classes() {
    assert!(Platform::Visionos.is_apple_platform());
    assert!(!Platform::Visionos.is_mobile_platform());
    assert!(Platform::Android.is_mobile_platform());
    assert!(!Platform::Web.is_apple_platform());
    assert_eq!(Platform::Ipados.to_text(), "iPadOS");
    assert_eq!(toolchain_targets_for_platform(Platform::Ios), vec![CheckTarget::Rust, CheckTarget::Swift]);
    assert_eq!(toolchain_targets_for_platform(Platform::Android), vec![CheckTarget::Rust, CheckTarget::Android]);
    assert_eq!(toolchain_targets_for_platform(Platform::Web), vec![CheckTarget::Rust]);
    assert!(platform_supports_native_hot_reload(Platform::Macos));
    assert!(!platform_supports_native_hot_reload(Platform::Web));
    assert_eq!(hot_reload_target(Platform::Android).as_deref(), Some("aarch64-linux-android"));
    assert_eq!(hot_reload_target(Platform::Ios), None);
}

#[test]
fn library_names_and_paths() {
    assert_eq!(dylib_filename("my-app", Some("aarch64-apple-ios"), "linux"), "libmy_app.dylib");
    assert_eq!(dylib_filename("my-app", Some("x86_64-pc-Windows-msvc"), "linux"), "my_app.dll");
    assert_eq!(dylib_filename("my-app", None, "linux"), "libmy_app.so");
    assert_eq!(dylib_filename("app", None, "macos"), "libapp.dylib");
    assert_eq!(hot_reload_library_path("/p", "my-app", false, Some("aarch64-linux-android"), "macos"), "/p/target/aarch64-linux-android/debug/libmy_app.so");
    assert_eq!(hot_reload_library_path("/p", "app", true, None, "linux"), "/p/target/release/libapp.so");
    let (src, dst) = jni_library_paths("/p", "my-app", true, "armv7-linux-androideabi").unwrap();
    assert_eq!(src, "/p/target/armv7-linux-androideabi/release/libmy_app.so");
    assert_eq!(dst, "/p/android/app/src/main/jniLibs/armeabi-v7a/libwaterui_app.so");
    assert!(jni_library_paths("/p", "a", true, "wasm32-unknown-unknown").is_none());
    assert_eq!(derived_data_dir("/p"), "/p/.waterui/DerivedData");
}

#[test]
fn messages() {
    assert_eq!(apple_build_progress_message("iOS", "App", None), "Building Xcode project \"App\" for iOS...");
    assert_eq!(apple_build_progress_message("iOS", "App", Some("generic/platform=iOS")), "Building Xcode project \"App\" for generic/platform=iOS...");
    assert_eq!(format_connection_loss_message(&NativeDisconnectReason::Graceful(Some(1000))), "Hot reload connection closed by the app (close code 1000).");
    assert_eq!(format_connection_loss_message(&NativeDisconnectReason::Graceful(None)), "Hot reload connection closed by the app.");
    assert_eq!(format_connection_loss_message(&NativeDisconnectReason::Abnormal("  reset \n".to_string())), "Hot reload connection failed (reset). The app likely crashed.");
    assert_eq!(format_connection_loss_message(&NativeDisconnectReason::Abnormal(" ".to_string())), "Hot reload connection failed. The app likely crashed.");
    assert_eq!(AutoSelectionReason::NonInteractive.message_prefix(), "Non-interactive terminal detected; using");
    assert_eq!(indent_lines("a\nb\n", "  "), "  a\n  b");
    assert_eq!(indent_lines("", "  "), "");
}

#[test]
fn hot_reload_environment() {
    let on = configure_hot_reload_env(true, Some(2006), &Some("-C opt-level=1".to_string()));
    assert_eq!(on.set.len(), 4);
    assert_eq!(on.set[2], ("WATERUI_HOT_RELOAD_PORT".to_string(), "2006".to_string()));
    assert_eq!(on.set[3], ("RUSTFLAGS".to_string(), "-C opt-level=1 --cfg=waterui_hot_reload_lib".to_string()));
    assert!(on.remove.is_empty());
    let already = configure_hot_reload_env(true, None, &Some("--cfg=waterui_hot_reload_lib".to_string()));
    assert_eq!(already.set.len(), 2);
    let off = configure_hot_reload_env(false, Some(1), &Some("  --cfg=waterui_hot_reload_lib -C x ".to_string()));
    assert_eq!(off.set[1], ("RUSTFLAGS".to_string(), "-C x".to_string()));
    assert_eq!(off.remove, vec!["WATERUI_HOT_RELOAD_HOST".to_string(), "WATERUI_HOT_RELOAD_PORT".to_string()]);
}

#[test]
fn mold_flags() {
    assert_eq!(configure_mold(false, &None), None);
    assert_eq!(configure_mold(true, &None).as_deref(), Some("-C link-arg=-fuse-ld=mold"));
    assert_eq!(configure_mold(true, &Some("-C link-arg=-fuse-ld=mold".to_string())), None);
    assert_eq!(configure_mold(true, &Some("-Dwarnings".to_string())).as_deref(), Some("-Dwarnings -C link-arg=-fuse-ld=mold"));
}

#[test]
fn web_pages_and_logs() {
    let web = WebPlatform::new();
    assert_eq!(web.js_module("my-app"), "./pkg/my_app.js");
    assert_eq!(web.index_html("import init from \"__WASM_JS_MODULE__\";", "my-app"), "import init from \"./pkg/my_app.js\";");
    assert_eq!(web.target(), "wasm32-unknown-unknown");
    assert_eq!(last_lines("a\nb\nc\n", 2), vec!["b".to_string(), "c".to_string()]);
    assert_eq!(last_lines("a\n", 5), vec!["a".to_string()]);
    assert_eq!(workspace_root("/repo/cli"), "/repo");
    assert_eq!(workspace_root("/cli"), "/");
}
